//! The index of the consensus addresses in use.

use crate::address::{StakedStateAddress, TendermintValidatorAddress};
use crate::assoc::{entries_map, has_key, is_first, keys_unique, lemma_entries_len,
    lemma_entry_in_map, lemma_first_in_map, lemma_push_entry, lemma_remove_entry,
    lemma_update_entry};
use vstd::prelude::*;

verus! {

/// From each consensus address in use to the staking account that owns it.
///
/// The entries are kept in a list, in which the first entry for an address
/// counts. A well-formed index lists no address twice, and every operation
/// keeps a well-formed index well-formed.
#[derive(Debug)]
pub struct ValidatorIndex {
    entries: Vec<(TendermintValidatorAddress, StakedStateAddress)>,
}

impl View for ValidatorIndex {
    type V = Map<TendermintValidatorAddress, StakedStateAddress>;

    closed spec fn view(&self) -> Map<TendermintValidatorAddress, StakedStateAddress> {
        entries_map(self.entries@)
    }
}

impl ValidatorIndex {
    /// No consensus address is listed twice.
    pub closed spec fn wf(&self) -> bool {
        keys_unique(self.entries@)
    }

    /// The place of the first entry for `address`, if there is one.
    fn find(&self, address: &TendermintValidatorAddress) -> (place: Option<usize>)
        ensures
            match place {
                Some(i) => is_first(self.entries@, *address, i as int),
                None => !has_key(self.entries@, *address),
            },
    {
        let mut i: usize = 0;
        while i < self.entries.len()
            invariant
                i <= self.entries.len(),
                forall|j: int| 0 <= j < i ==> (#[trigger] self.entries@[j]).0 != *address,
            decreases self.entries.len() - i,
        {
            if self.entries[i].0 == *address {
                return Some(i);
            }
            i += 1;
        }
        None
    }

    /// The index with no address in use.
    pub fn new() -> (index: ValidatorIndex)
        ensures
            index.wf(),
            index@ == Map::<TendermintValidatorAddress, StakedStateAddress>::empty(),
    {
        let index = ValidatorIndex { entries: Vec::new() };
        assert(index@ =~= Map::<TendermintValidatorAddress, StakedStateAddress>::empty());
        index
    }

    /// Whether no consensus address is listed twice.
    pub fn check_wf(&self) -> (ok: bool)
        ensures
            ok == self.wf(),
    {
        let mut j: usize = 0;
        while j < self.entries.len()
            invariant
                j <= self.entries.len(),
                forall|a: int, b: int|
                    0 <= a < b < j ==> (#[trigger] self.entries@[a]).0 != (
                    #[trigger] self.entries@[b]).0,
            decreases self.entries.len() - j,
        {
            let mut i: usize = 0;
            while i < j
                invariant
                    i <= j < self.entries.len(),
                    forall|a: int| 0 <= a < i ==> (#[trigger] self.entries@[a]).0 != self.entries@[j as int].0,
                decreases j - i,
            {
                if self.entries[i].0 == self.entries[j].0 {
                    return false;
                }
                i += 1;
            }
            j += 1;
        }
        true
    }

    /// The entries in the order in which they are kept.
    pub closed spec fn listed(&self) -> Seq<(TendermintValidatorAddress, StakedStateAddress)> {
        self.entries@
    }

    /// A well-formed index maps exactly the addresses it lists, each to the
    /// owner listed with it.
    pub proof fn lemma_listed(&self)
        requires
            self.wf(),
        ensures
            forall|i: int|
                0 <= i < self.listed().len() ==> self@.contains_key((#[trigger] self.listed()[i]).0)
                    && self@[self.listed()[i].0] == self.listed()[i].1,
            forall|address: TendermintValidatorAddress| #[trigger]
                self@.contains_key(address) ==> has_key(self.listed(), address),
    {
        assert forall|i: int| 0 <= i < self.listed().len() implies self@.contains_key(
            (#[trigger] self.listed()[i]).0,
        ) && self@[self.listed()[i].0] == self.listed()[i].1 by {
            lemma_entry_in_map(self.entries@, i);
        }
    }

    /// No consensus address has two owners: two entries of a well-formed index
    /// with the same address are one entry.
    pub proof fn lemma_one_owner(&self, i: int, j: int)
        requires
            self.wf(),
            0 <= i < self.listed().len(),
            0 <= j < self.listed().len(),
            self.listed()[i].0 == self.listed()[j].0,
        ensures
            i == j,
    {
        if i < j {
            assert(self.entries@[i].0 != self.entries@[j].0);
        } else if j < i {
            assert(self.entries@[j].0 != self.entries@[i].0);
        }
    }

    /// How many entries are kept.
    pub fn entry_count(&self) -> (n: usize)
        ensures
            n == self.listed().len(),
    {
        self.entries.len()
    }

    /// The entry at place `i`.
    pub fn entry_at(&self, i: usize) -> (entry: (TendermintValidatorAddress, StakedStateAddress))
        requires
            i < self.listed().len(),
        ensures
            entry == self.listed()[i as int],
    {
        self.entries[i]
    }

    /// How many addresses are in use.
    pub fn len(&self) -> (n: usize)
        requires
            self.wf(),
        ensures
            self@.dom().finite(),
            n == self@.len(),
    {
        proof {
            lemma_entries_len(self.entries@);
        }
        self.entries.len()
    }

    /// Whether `address` is in use.
    pub fn contains_key(&self, address: &TendermintValidatorAddress) -> (found: bool)
        ensures
            found == self@.contains_key(*address),
    {
        let place = self.find(address);
        proof {
            if let Some(i) = place {
                lemma_first_in_map(self.entries@, i as int);
            }
        }
        place.is_some()
    }

    /// The owner of `address`, if it is in use.
    pub fn get(&self, address: &TendermintValidatorAddress) -> (owner: Option<StakedStateAddress>)
        ensures
            owner == if self@.contains_key(*address) {
                Some(self@[*address])
            } else {
                None
            },
    {
        match self.find(address) {
            Some(i) => {
                proof {
                    lemma_first_in_map(self.entries@, i as int);
                }
                Some(self.entries[i].1)
            },
            None => None,
        }
    }

    /// Makes `owner` the owner of `address`, and returns the owner it had.
    pub fn insert(&mut self, address: TendermintValidatorAddress, owner: StakedStateAddress) -> (before:
        Option<StakedStateAddress>)
        ensures
            old(self).wf() ==> final(self).wf(),
            final(self)@ == old(self)@.insert(address, owner),
            before == if old(self)@.contains_key(address) {
                Some(old(self)@[address])
            } else {
                None
            },
    {
        match self.find(&address) {
            Some(i) => {
                let before = self.entries[i].1;
                proof {
                    lemma_first_in_map(self.entries@, i as int);
                    lemma_update_entry(self.entries@, i as int, owner);
                }
                self.entries[i] = (self.entries[i].0, owner);
                Some(before)
            },
            None => {
                proof {
                    lemma_push_entry(self.entries@, address, owner);
                }
                self.entries.push((address, owner));
                None
            },
        }
    }

    /// Takes `address` out of use, and returns the owner it had.
    pub fn remove(&mut self, address: &TendermintValidatorAddress) -> (before: Option<
        StakedStateAddress,
    >)
        requires
            old(self).wf(),
        ensures
            final(self).wf(),
            final(self)@ == old(self)@.remove(*address),
            before == if old(self)@.contains_key(*address) {
                Some(old(self)@[*address])
            } else {
                None
            },
    {
        match self.find(address) {
            Some(i) => {
                proof {
                    lemma_entry_in_map(self.entries@, i as int);
                    lemma_remove_entry(self.entries@, i as int);
                }
                let entry = self.entries.remove(i);
                Some(entry.1)
            },
            None => {
                assert(self@ =~= old(self)@.remove(*address));
                None
            },
        }
    }
}

} // verus!
