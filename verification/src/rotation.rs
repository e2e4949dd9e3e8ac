//! The window of consensus addresses that a validator has given up.
//!
//! A validator that changes its consensus key stays answerable for evidence
//! against the old one for as long as such evidence is accepted. Each address
//! given up is kept with the time at which it was, and dropped once older than
//! the evidence age. The window holds a bounded number of entries.

use crate::address::{TendermintValidatorAddress, Timespec};
use vstd::prelude::*;

verus! {

/// How many consensus addresses given up a validator may have within the
/// evidence window.
pub const MAX_USED_VALIDATOR_ADDR: usize = 10;

/// A consensus address given up, with the time at which it was.
pub type UsedAddress = (TendermintValidatorAddress, Timespec);

/// An entry is expired once its time plus the evidence age, clamped to the
/// end of time, is at or before the block time.
pub open spec fn is_expired(
    retired_at: Timespec,
    max_evidence_age: Timespec,
    block_time: Timespec,
) -> bool {
    retired_at.saturating_add(max_evidence_age) <= block_time
}

/// The entries still within the evidence window, in their order.
pub open spec fn live_entries(
    used: Seq<UsedAddress>,
    block_time: Timespec,
    max_evidence_age: Timespec,
) -> Seq<UsedAddress> {
    used.filter(|entry: UsedAddress| !is_expired(entry.1, max_evidence_age, block_time))
}

/// The addresses of the entries that have left the evidence window, in their
/// order.
pub open spec fn expired_addresses(
    used: Seq<UsedAddress>,
    block_time: Timespec,
    max_evidence_age: Timespec,
) -> Seq<TendermintValidatorAddress> {
    used.filter(|entry: UsedAddress| is_expired(entry.1, max_evidence_age, block_time)).map_values(
        |entry: UsedAddress| entry.0,
    )
}

/// Whether the window holds `address`.
pub open spec fn uses(used: Seq<UsedAddress>, address: TendermintValidatorAddress) -> bool {
    exists|i: int| 0 <= i < used.len() && (#[trigger] used[i]).0 == address
}

/// No address is in the window twice.
pub open spec fn addresses_distinct(used: Seq<UsedAddress>) -> bool {
    forall|i: int, j: int|
        0 <= i < j < used.len() ==> (#[trigger] used[i]).0 != (#[trigger] used[j]).0
}

/// Both selections of a window with one more entry at its end.
pub proof fn lemma_window_push(
    used: Seq<UsedAddress>,
    entry: UsedAddress,
    block_time: Timespec,
    max_evidence_age: Timespec,
)
    ensures
        live_entries(used.push(entry), block_time, max_evidence_age) == if is_expired(
            entry.1,
            max_evidence_age,
            block_time,
        ) {
            live_entries(used, block_time, max_evidence_age)
        } else {
            live_entries(used, block_time, max_evidence_age).push(entry)
        },
        expired_addresses(used.push(entry), block_time, max_evidence_age) == if is_expired(
            entry.1,
            max_evidence_age,
            block_time,
        ) {
            expired_addresses(used, block_time, max_evidence_age).push(entry.0)
        } else {
            expired_addresses(used, block_time, max_evidence_age)
        },
{
    reveal(Seq::filter);
    let longer = used.push(entry);
    assert(longer.drop_last() =~= used);
    assert(longer.last() == entry);
    let gone = |e: UsedAddress| is_expired(e.1, max_evidence_age, block_time);
    let first = |e: UsedAddress| e.0;
    if is_expired(entry.1, max_evidence_age, block_time) {
        assert(longer.filter(gone) == used.filter(gone).push(entry));
        assert(used.filter(gone).push(entry).map_values(first) =~= used.filter(gone).map_values(
            first,
        ).push(entry.0));
    }
}

/// The two selections divide the window: every address of the window is
/// among the live entries or among the expired addresses, and both hold
/// addresses of the window only.
pub proof fn lemma_window_divided(
    used: Seq<UsedAddress>,
    block_time: Timespec,
    max_evidence_age: Timespec,
)
    ensures
        live_entries(used, block_time, max_evidence_age).len() + expired_addresses(
            used,
            block_time,
            max_evidence_age,
        ).len() == used.len(),
        forall|a: TendermintValidatorAddress| #[trigger]
            uses(used, a) ==> uses(live_entries(used, block_time, max_evidence_age), a)
                || expired_addresses(used, block_time, max_evidence_age).contains(a),
        forall|a: TendermintValidatorAddress| #[trigger]
            uses(live_entries(used, block_time, max_evidence_age), a) ==> uses(used, a),
        forall|a: TendermintValidatorAddress| #[trigger]
            expired_addresses(used, block_time, max_evidence_age).contains(a) ==> uses(used, a),
    decreases used.len(),
{
    let live = live_entries(used, block_time, max_evidence_age);
    let gone = expired_addresses(used, block_time, max_evidence_age);
    if used.len() == 0 {
        reveal(Seq::filter);
        assert(live.len() == 0);
        assert(gone.len() == 0);
    } else {
        let front = used.drop_last();
        let entry = used.last();
        let live_front = live_entries(front, block_time, max_evidence_age);
        let gone_front = expired_addresses(front, block_time, max_evidence_age);
        lemma_window_divided(front, block_time, max_evidence_age);
        lemma_window_push(front, entry, block_time, max_evidence_age);
        assert(front.push(entry) =~= used);
        assert forall|a: TendermintValidatorAddress| #[trigger] uses(used, a) implies uses(live, a)
            || gone.contains(a) by {
            {
                let i = choose|i: int| 0 <= i < used.len() && (#[trigger] used[i]).0 == a;
                if i < front.len() {
                    assert(front[i].0 == a);
                    assert(uses(front, a));
                    if uses(live_front, a) {
                        let k = choose|k: int|
                            0 <= k < live_front.len() && (#[trigger] live_front[k]).0 == a;
                        assert(live[k].0 == a);
                    } else {
                        let k = choose|k: int| 0 <= k < gone_front.len() && gone_front[k] == a;
                        assert(gone[k] == a);
                    }
                } else if is_expired(entry.1, max_evidence_age, block_time) {
                    assert(gone[gone.len() - 1] == a);
                } else {
                    assert(live[live.len() - 1].0 == a);
                }
            }
        }
        assert forall|a: TendermintValidatorAddress| #[trigger] uses(live, a) implies uses(
            used,
            a,
        ) by {
            {
                let k = choose|k: int| 0 <= k < live.len() && (#[trigger] live[k]).0 == a;
                if k < live_front.len() {
                    assert(live_front[k].0 == a);
                    assert(uses(live_front, a));
                    let i = choose|i: int| 0 <= i < front.len() && (#[trigger] front[i]).0 == a;
                    assert(used[i].0 == a);
                } else {
                    assert(used[used.len() - 1].0 == a);
                }
            }
        }
        assert forall|a: TendermintValidatorAddress| #[trigger] gone.contains(a) implies uses(
            used,
            a,
        ) by {
            {
                let k = choose|k: int| 0 <= k < gone.len() && gone[k] == a;
                if k < gone_front.len() {
                    assert(gone_front[k] == a);
                    assert(gone_front.contains(a));
                    let i = choose|i: int| 0 <= i < front.len() && (#[trigger] front[i]).0 == a;
                    assert(used[i].0 == a);
                } else {
                    assert(used[used.len() - 1].0 == a);
                }
            }
        }
    }
}

/// The selections of a window without repeated addresses share no address,
/// and neither repeats one.
pub proof fn lemma_window_distinct(
    used: Seq<UsedAddress>,
    block_time: Timespec,
    max_evidence_age: Timespec,
)
    requires
        addresses_distinct(used),
    ensures
        addresses_distinct(live_entries(used, block_time, max_evidence_age)),
        expired_addresses(used, block_time, max_evidence_age).no_duplicates(),
        forall|a: TendermintValidatorAddress| #[trigger]
            uses(live_entries(used, block_time, max_evidence_age), a) ==> !expired_addresses(
                used,
                block_time,
                max_evidence_age,
            ).contains(a),
    decreases used.len(),
{
    let live = live_entries(used, block_time, max_evidence_age);
    let gone = expired_addresses(used, block_time, max_evidence_age);
    if used.len() == 0 {
        reveal(Seq::filter);
        assert(live.len() == 0);
        assert(gone.len() == 0);
    } else {
        let front = used.drop_last();
        let entry = used.last();
        let live_front = live_entries(front, block_time, max_evidence_age);
        let gone_front = expired_addresses(front, block_time, max_evidence_age);
        assert(addresses_distinct(front)) by {
            assert forall|i: int, j: int| 0 <= i < j < front.len() implies (#[trigger] front[i]).0
                != (#[trigger] front[j]).0 by {
                assert(used[i].0 != used[j].0);
            }
        }
        lemma_window_distinct(front, block_time, max_evidence_age);
        lemma_window_divided(front, block_time, max_evidence_age);
        lemma_window_push(front, entry, block_time, max_evidence_age);
        assert(front.push(entry) =~= used);
        assert(!uses(front, entry.0)) by {
            if uses(front, entry.0) {
                let i = choose|i: int| 0 <= i < front.len() && (#[trigger] front[i]).0 == entry.0;
                assert(used[i].0 != used[used.len() - 1].0);
            }
        }
        assert(!uses(live_front, entry.0));
        assert(!gone_front.contains(entry.0));
        assert(addresses_distinct(live)) by {
            assert forall|i: int, j: int| 0 <= i < j < live.len() implies (#[trigger] live[i]).0
                != (#[trigger] live[j]).0 by {
                if j < live_front.len() {
                    assert(live_front[i].0 != live_front[j].0);
                } else {
                    assert(live_front[i].0 != entry.0);
                }
            }
        }
        assert(gone.no_duplicates()) by {
            assert forall|i: int, j: int| 0 <= i < gone.len() && 0 <= j < gone.len() && i
                != j implies gone[i] != gone[j] by {
                if i < gone_front.len() && j < gone_front.len() {
                    assert(gone_front[i] != gone_front[j]);
                } else if i < gone_front.len() {
                    assert(gone_front.contains(gone_front[i]));
                } else {
                    assert(gone_front.contains(gone_front[j]));
                }
            }
        }
        assert forall|a: TendermintValidatorAddress| #[trigger] uses(live, a) implies !gone.contains(
            a,
        ) by {
            if gone.contains(a) {
                let k = choose|k: int| 0 <= k < live.len() && (#[trigger] live[k]).0 == a;
                let m = choose|m: int| 0 <= m < gone.len() && gone[m] == a;
                if k < live_front.len() {
                    assert(live_front[k].0 == a);
                    assert(uses(live_front, a));
                    if m < gone_front.len() {
                        assert(gone_front[m] == a);
                        assert(gone_front.contains(a));
                    }
                } else {
                    assert(gone_front[m] == a);
                    assert(gone_front.contains(a));
                }
            }
        }
    }
}

/// The addresses of the entries that have left the evidence window.
pub fn out_of_date_addresses(
    used: &Vec<UsedAddress>,
    block_time: Timespec,
    max_evidence_age: Timespec,
) -> (out_of_date: Vec<TendermintValidatorAddress>)
    ensures
        out_of_date@ == expired_addresses(used@, block_time, max_evidence_age),
{
    let mut out_of_date: Vec<TendermintValidatorAddress> = Vec::new();
    let mut i: usize = 0;
    proof {
        reveal(Seq::filter);
        assert(used@.take(0) =~= Seq::<UsedAddress>::empty());
        assert(expired_addresses(used@.take(0), block_time, max_evidence_age) =~= out_of_date@);
    }
    while i < used.len()
        invariant
            i <= used.len(),
            out_of_date@ == expired_addresses(used@.take(i as int), block_time, max_evidence_age),
        decreases used.len() - i,
    {
        let entry = used[i];
        proof {
            lemma_window_push(used@.take(i as int), entry, block_time, max_evidence_age);
            assert(used@.take(i as int).push(entry) =~= used@.take(i + 1));
        }
        if entry.1.saturating_add(max_evidence_age) <= block_time {
            out_of_date.push(entry.0);
        }
        i += 1;
    }
    assert(used@.take(i as int) =~= used@);
    out_of_date
}

/// Drops from the window the entries that have left the evidence window.
fn retain_live(used: &mut Vec<UsedAddress>, block_time: Timespec, max_evidence_age: Timespec)
    ensures
        final(used)@ == live_entries(old(used)@, block_time, max_evidence_age),
{
    let mut kept: Vec<UsedAddress> = Vec::new();
    let mut i: usize = 0;
    proof {
        reveal(Seq::filter);
        assert(used@.take(0) =~= Seq::<UsedAddress>::empty());
    }
    while i < used.len()
        invariant
            i <= used.len(),
            *used == *old(used),
            kept@ == live_entries(used@.take(i as int), block_time, max_evidence_age),
        decreases used.len() - i,
    {
        let entry = used[i];
        proof {
            lemma_window_push(used@.take(i as int), entry, block_time, max_evidence_age);
            assert(used@.take(i as int).push(entry) =~= used@.take(i + 1));
        }
        if entry.1.saturating_add(max_evidence_age) > block_time {
            kept.push(entry);
        }
        i += 1;
    }
    assert(used@.take(i as int) =~= used@);
    *used = kept;
}

/// Retires `old_val_addr` at `block_time`.
///
/// Where fewer than `max_bound` entries are still within the evidence window,
/// the expired entries leave the window, the old address enters it at the end,
/// and the addresses that left are returned. Otherwise the window is full:
/// nothing changes and nothing is returned.
pub fn add_old_val_addr(
    used: &mut Vec<UsedAddress>,
    block_time: Timespec,
    old_val_addr: &TendermintValidatorAddress,
    max_bound: usize,
    max_evidence_age: Timespec,
) -> (out_of_date: Option<Vec<TendermintValidatorAddress>>)
    ensures
        match out_of_date {
            Some(addresses) => {
                &&& live_entries(old(used)@, block_time, max_evidence_age).len() < max_bound
                &&& addresses@ == expired_addresses(old(used)@, block_time, max_evidence_age)
                &&& final(used)@ == live_entries(old(used)@, block_time, max_evidence_age).push(
                    (*old_val_addr, block_time),
                )
            },
            None => {
                &&& live_entries(old(used)@, block_time, max_evidence_age).len() >= max_bound
                &&& final(used)@ == old(used)@
            },
        },
{
    let out_of_date = out_of_date_addresses(used, block_time, max_evidence_age);
    proof {
        lemma_window_divided(used@, block_time, max_evidence_age);
    }
    if used.len() - out_of_date.len() < max_bound {
        retain_live(used, block_time, max_evidence_age);
        used.push((*old_val_addr, block_time));
        Some(out_of_date)
    } else {
        None
    }
}

} // verus!
