//! Association lists read as maps.
//!
//! The collections of this library keep their entries in a vector. Here is
//! what such a vector means as a map, and how the map follows the vector when
//! an entry is added, replaced or taken out. Where a key occurs more than once,
//! its first entry counts.

use vstd::prelude::*;

verus! {

/// No key occurs at two places of the list.
pub open spec fn keys_unique<K, V>(entries: Seq<(K, V)>) -> bool {
    forall|i: int, j: int|
        0 <= i < j < entries.len() ==> (#[trigger] entries[i]).0 != (#[trigger] entries[j]).0
}

/// Whether some entry of the list has the key.
pub open spec fn has_key<K, V>(entries: Seq<(K, V)>, key: K) -> bool {
    exists|i: int| 0 <= i < entries.len() && (#[trigger] entries[i]).0 == key
}

/// Whether the entry at place `i` is the first with the key.
pub open spec fn is_first<K, V>(entries: Seq<(K, V)>, key: K, i: int) -> bool {
    &&& 0 <= i < entries.len()
    &&& entries[i].0 == key
    &&& forall|j: int| 0 <= j < i ==> (#[trigger] entries[j]).0 != key
}

/// The place of the first entry with the key, where there is one.
pub open spec fn place_of<K, V>(entries: Seq<(K, V)>, key: K) -> int {
    choose|i: int| is_first(entries, key, i)
}

/// At or before an entry with the key there is a first one.
proof fn lemma_first_exists<K, V>(entries: Seq<(K, V)>, key: K, i: int)
    requires
        0 <= i < entries.len(),
        entries[i].0 == key,
    ensures
        exists|p: int| is_first(entries, key, p),
    decreases i,
{
    if exists|j: int| 0 <= j < i && (#[trigger] entries[j]).0 == key {
        let j = choose|j: int| 0 <= j < i && (#[trigger] entries[j]).0 == key;
        lemma_first_exists(entries, key, j);
    } else {
        assert(is_first(entries, key, i));
    }
}

/// The place of a key that the list has is that of its first entry.
pub proof fn lemma_place_of<K, V>(entries: Seq<(K, V)>, key: K)
    requires
        has_key(entries, key),
    ensures
        is_first(entries, key, place_of(entries, key)),
{
    let i = choose|i: int| 0 <= i < entries.len() && (#[trigger] entries[i]).0 == key;
    lemma_first_exists(entries, key, i);
}

/// The first entry with a key is an entry of the map.
pub proof fn lemma_first_in_map<K, V>(entries: Seq<(K, V)>, i: int)
    requires
        is_first(entries, entries[i].0, i),
    ensures
        entries_map(entries).contains_key(entries[i].0),
        entries_map(entries)[entries[i].0] == entries[i].1,
{
    let key = entries[i].0;
    assert(has_key(entries, key));
    let p = place_of(entries, key);
    assert(is_first(entries, key, p));
    if p < i {
        assert(entries[p].0 != key);
    } else if i < p {
        assert(entries[i].0 != key);
    }
}

/// The map that takes each key of the list to the value listed with it.
pub open spec fn entries_map<K, V>(entries: Seq<(K, V)>) -> Map<K, V> {
    Map::new(|key: K| has_key(entries, key), |key: K| entries[place_of(entries, key)].1)
}

/// An entry of a list without repeated keys is an entry of its map.
pub proof fn lemma_entry_in_map<K, V>(entries: Seq<(K, V)>, i: int)
    requires
        keys_unique(entries),
        0 <= i < entries.len(),
    ensures
        entries_map(entries).contains_key(entries[i].0),
        entries_map(entries)[entries[i].0] == entries[i].1,
{
    assert forall|j: int| 0 <= j < i implies (#[trigger] entries[j]).0 != entries[i].0 by {
        assert(entries[j].0 != entries[i].0);
    }
    lemma_first_in_map(entries, i);
}

/// Adding an entry under a key that the list does not have inserts it into the
/// map.
pub proof fn lemma_push_entry<K, V>(entries: Seq<(K, V)>, key: K, value: V)
    requires
        !has_key(entries, key),
    ensures
        keys_unique(entries) ==> keys_unique(entries.push((key, value))),
        entries_map(entries.push((key, value))) == entries_map(entries).insert(key, value),
{
    let longer = entries.push((key, value));
    if keys_unique(entries) {
        assert forall|i: int, j: int| 0 <= i < j < longer.len() implies (#[trigger] longer[i]).0
            != (#[trigger] longer[j]).0 by {
            if j == entries.len() {
                assert(entries[i].0 != key);
            } else {
                assert(entries[i].0 != entries[j].0);
            }
        }
    }
    assert forall|k: K| #[trigger]
        entries_map(longer).contains_key(k) == entries_map(entries).insert(key, value).contains_key(
            k,
        ) by {
        if has_key(longer, k) {
            let i = choose|i: int| 0 <= i < longer.len() && (#[trigger] longer[i]).0 == k;
            if i < entries.len() {
                assert(entries[i].0 == k);
            }
        }
        if has_key(entries, k) {
            let i = choose|i: int| 0 <= i < entries.len() && (#[trigger] entries[i]).0 == k;
            assert(longer[i].0 == k);
        }
        if k == key {
            assert(longer[entries.len() as int].0 == k);
        }
    }
    assert forall|k: K| #[trigger] entries_map(longer).contains_key(k) implies entries_map(longer)[k]
        == entries_map(entries).insert(key, value)[k] by {
        lemma_place_of(longer, k);
        let i = place_of(longer, k);
        if i < entries.len() {
            assert(entries[i].0 == k);
            assert forall|j: int| 0 <= j < i implies (#[trigger] entries[j]).0 != k by {
                assert(longer[j].0 != k);
            }
            lemma_first_in_map(entries, i);
        }
    }
    assert(entries_map(longer) =~= entries_map(entries).insert(key, value));
}

/// Replacing the value of the first entry with a key replaces it in the map.
pub proof fn lemma_update_entry<K, V>(entries: Seq<(K, V)>, i: int, value: V)
    requires
        is_first(entries, entries[i].0, i),
    ensures
        keys_unique(entries) ==> keys_unique(entries.update(i, (entries[i].0, value))),
        entries_map(entries.update(i, (entries[i].0, value))) == entries_map(entries).insert(
            entries[i].0,
            value,
        ),
{
    let key = entries[i].0;
    let changed = entries.update(i, (key, value));
    if keys_unique(entries) {
        assert forall|a: int, b: int| 0 <= a < b < changed.len() implies (#[trigger] changed[a]).0
            != (#[trigger] changed[b]).0 by {
            assert(entries[a].0 != entries[b].0);
        }
    }
    assert forall|k: K| #[trigger]
        entries_map(changed).contains_key(k) == entries_map(entries).insert(key, value).contains_key(
            k,
        ) by {
        if has_key(changed, k) {
            let j = choose|j: int| 0 <= j < changed.len() && (#[trigger] changed[j]).0 == k;
            assert(entries[j].0 == k);
        }
        if has_key(entries, k) {
            let j = choose|j: int| 0 <= j < entries.len() && (#[trigger] entries[j]).0 == k;
            assert(changed[j].0 == k);
        }
        if k == key {
            assert(changed[i].0 == k);
        }
    }
    assert forall|k: K| #[trigger] entries_map(changed).contains_key(k) implies entries_map(
        changed,
    )[k] == entries_map(entries).insert(key, value)[k] by {
        lemma_place_of(changed, k);
        let j = place_of(changed, k);
        assert(entries[j].0 == k);
        assert forall|a: int| 0 <= a < j implies (#[trigger] entries[a]).0 != k by {
            assert(changed[a].0 != k);
        }
        lemma_first_in_map(entries, j);
        if k == key && j != i {
            if j < i {
                assert(entries[j].0 != key);
            } else {
                assert(changed[i].0 != k);
            }
        }
    }
    assert(entries_map(changed) =~= entries_map(entries).insert(key, value));
}

/// Taking an entry out of the list removes its key from the map.
pub proof fn lemma_remove_entry<K, V>(entries: Seq<(K, V)>, i: int)
    requires
        keys_unique(entries),
        0 <= i < entries.len(),
    ensures
        keys_unique(entries.remove(i)),
        entries_map(entries.remove(i)) == entries_map(entries).remove(entries[i].0),
{
    let key = entries[i].0;
    let shorter = entries.remove(i);
    assert(keys_unique(shorter)) by {
        assert forall|a: int, b: int| 0 <= a < b < shorter.len() implies (#[trigger] shorter[a]).0
            != (#[trigger] shorter[b]).0 by {
            let a0 = if a < i { a } else { a + 1 };
            let b0 = if b < i { b } else { b + 1 };
            assert(entries[a0].0 != entries[b0].0);
        }
    }
    assert forall|k: K| #[trigger]
        entries_map(shorter).contains_key(k) == entries_map(entries).remove(key).contains_key(
            k,
        ) by {
        if has_key(shorter, k) {
            let j = choose|j: int| 0 <= j < shorter.len() && (#[trigger] shorter[j]).0 == k;
            let j0 = if j < i { j } else { j + 1 };
            assert(entries[j0].0 == k);
            if j0 < i {
                assert(entries[j0].0 != entries[i].0);
            } else {
                assert(entries[i].0 != entries[j0].0);
            }
        }
        if has_key(entries, k) && k != key {
            let j = choose|j: int| 0 <= j < entries.len() && (#[trigger] entries[j]).0 == k;
            let j1 = if j < i { j } else { j - 1 };
            assert(shorter[j1].0 == k);
        }
    }
    assert forall|k: K| #[trigger] entries_map(shorter).contains_key(k) implies entries_map(
        shorter,
    )[k] == entries_map(entries).remove(key)[k] by {
        lemma_place_of(shorter, k);
        let j = place_of(shorter, k);
        let j0 = if j < i { j } else { j + 1 };
        lemma_entry_in_map(shorter, j);
        lemma_entry_in_map(entries, j0);
    }
    assert(entries_map(shorter) =~= entries_map(entries).remove(key));
}

/// The map of a list without repeated keys has as many keys as the list has
/// entries.
pub proof fn lemma_entries_len<K, V>(entries: Seq<(K, V)>)
    requires
        keys_unique(entries),
    ensures
        entries_map(entries).dom().finite(),
        entries_map(entries).dom().len() == entries.len(),
    decreases entries.len(),
{
    if entries.len() == 0 {
        assert(entries_map(entries).dom() =~= Set::<K>::empty());
    } else {
        let shorter = entries.drop_last();
        let last = entries.last();
        assert(keys_unique(shorter)) by {
            assert forall|a: int, b: int| 0 <= a < b < shorter.len() implies (
            #[trigger] shorter[a]).0 != (#[trigger] shorter[b]).0 by {
                assert(entries[a].0 != entries[b].0);
            }
        }
        assert(!has_key(shorter, last.0)) by {
            if has_key(shorter, last.0) {
                let j = choose|j: int| 0 <= j < shorter.len() && (#[trigger] shorter[j]).0 == last.0;
                assert(entries[j].0 != entries[entries.len() - 1].0);
            }
        }
        lemma_entries_len(shorter);
        lemma_push_entry(shorter, last.0, last.1);
        assert(shorter.push((last.0, last.1)) =~= entries);
        assert(entries_map(entries).dom() =~= entries_map(shorter).dom().insert(last.0));
    }
}

} // verus!
