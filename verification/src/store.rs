//! Where the staking records are kept.

use crate::account::{StakedState, StakedStateView};
use crate::address::StakedStateAddress;
use crate::assoc::{entries_map, has_key, is_first, lemma_first_in_map, lemma_push_entry,
    lemma_update_entry};
use crate::coin::Coin;
use vstd::prelude::*;

verus! {

/// A store of staking records, one at most for each account.
///
/// The state machine reads and writes records through this interface and
/// nothing else. The store is a map from the address of an account to its
/// record, and each record is kept under the address it names.
pub trait StoreStaking {
    /// The records in the store.
    spec fn records(&self) -> Map<StakedStateAddress, StakedStateView>;

    /// The record of `address`, if the store has one. It names `address`.
    fn get(&self, address: &StakedStateAddress) -> (found: Option<StakedState>)
        ensures
            match found {
                Some(staking) => {
                    &&& self.records().contains_key(*address)
                    &&& staking@ == self.records()[*address]
                    &&& staking.address == *address
                },
                None => !self.records().contains_key(*address),
            },
    ;

    /// Puts `staking` in place of the record of its account.
    ///
    /// `minimal_required_staking` is the bonded amount required of a validator
    /// at the time of writing, for what the store keeps beside the records.
    fn set_staking(&mut self, staking: StakedState, minimal_required_staking: Coin)
        ensures
            final(self).records() == old(self).records().insert(staking.address, staking@),
    ;
}

/// A store that keeps its records in memory.
#[derive(Debug)]
pub struct MemoryStore {
    entries: Vec<StakedState>,
}

impl MemoryStore {
    /// The records as a list of addresses and contents.
    closed spec fn listed(self) -> Seq<(StakedStateAddress, StakedStateView)> {
        self.entries@.map_values(|staking: StakedState| (staking.address, staking@))
    }

    /// The place of the first record of `address`, if there is one.
    fn find(&self, address: &StakedStateAddress) -> (place: Option<usize>)
        ensures
            match place {
                Some(i) => i < self.entries@.len() && is_first(self.listed(), *address, i as int),
                None => !has_key(self.listed(), *address),
            },
    {
        let mut i: usize = 0;
        while i < self.entries.len()
            invariant
                i <= self.entries.len(),
                self.listed().len() == self.entries@.len(),
                forall|j: int| 0 <= j < i ==> (#[trigger] self.listed()[j]).0 != *address,
            decreases self.entries.len() - i,
        {
            assert(self.listed()[i as int].0 == self.entries@[i as int].address);
            if self.entries[i].address == *address {
                return Some(i);
            }
            i += 1;
        }
        None
    }

    /// The store without a record.
    pub fn new() -> (store: MemoryStore)
        ensures
            store.records() == Map::<StakedStateAddress, StakedStateView>::empty(),
    {
        let store = MemoryStore { entries: Vec::new() };
        assert(store.records() =~= Map::<StakedStateAddress, StakedStateView>::empty());
        store
    }
}

impl StoreStaking for MemoryStore {
    closed spec fn records(&self) -> Map<StakedStateAddress, StakedStateView> {
        entries_map(self.listed())
    }

    fn get(&self, address: &StakedStateAddress) -> (found: Option<StakedState>) {
        match self.find(address) {
            Some(i) => {
                proof {
                    lemma_first_in_map(self.listed(), i as int);
                }
                Some(self.entries[i].clone())
            },
            None => None,
        }
    }

    fn set_staking(&mut self, staking: StakedState, minimal_required_staking: Coin) {
        let ghost before = self.listed();
        match self.find(&staking.address) {
            Some(i) => {
                proof {
                    lemma_update_entry(before, i as int, staking@);
                }
                self.entries[i] = staking;
                assert(self.listed() =~= before.update(i as int, (staking.address, staking@)));
            },
            None => {
                proof {
                    lemma_push_entry(before, staking.address, staking@);
                }
                self.entries.push(staking);
                assert(self.listed() =~= before.push((staking.address, staking@)));
            },
        }
    }
}

} // verus!
