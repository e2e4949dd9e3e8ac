//! The working state of staking: the index of consensus addresses and the
//! bonded amount required of a validator.

use crate::account::{NodeMetadata, NodeState, StakedState, StakedStateView};
use crate::address::{StakedStateAddress, TendermintValidatorAddress, Timespec};
use crate::assoc::has_key;
use crate::coin::{Coin, CoinError, MAX_COIN};
use crate::index::ValidatorIndex;
use crate::invariants::{complete, consistent, entry_checked, index_checked,
    lemma_complete_can_evict, lemma_consistent_checked, record_reports};
use crate::nodejoin::{NodeJoinRequestTx, NodeJoinRequestTxView};
use crate::rotation::{lemma_window_divided, out_of_date_addresses, MAX_USED_VALIDATOR_ADDR};
use crate::store::StoreStaking;
use crate::tx::{can_evict, join_evicts};
use vstd::prelude::*;

verus! {

/// The staking state that is held in memory while blocks are executed.
#[derive(Debug)]
pub struct StakingTable {
    idx_validator_address: ValidatorIndex,
    minimal_required_staking: Coin,
}

/// The mathematical content of a [`StakingTable`].
pub struct StakingTableView {
    /// From each consensus address in use to the account that owns it.
    pub idx_validator_address: Map<TendermintValidatorAddress, StakedStateAddress>,
    /// The bonded amount required of a validator.
    pub minimal_required_staking: nat,
}

impl View for StakingTable {
    type V = StakingTableView;

    closed spec fn view(&self) -> StakingTableView {
        StakingTableView {
            idx_validator_address: self.idx_validator_address@,
            minimal_required_staking: self.minimal_required_staking@,
        }
    }
}

/// The record that `address` has in `records`, or the one of an account that
/// nothing has happened to.
pub open spec fn record_of(
    records: Map<StakedStateAddress, StakedStateView>,
    address: StakedStateAddress,
) -> StakedStateView {
    if records.contains_key(address) {
        records[address]
    } else {
        StakedStateView::fresh(address)
    }
}

/// Writes `staking` to the store, in place of the record of its account.
pub fn set_staking<S: StoreStaking>(
    heap: &mut S,
    staking: StakedState,
    minimal_required_staking: Coin,
)
    ensures
        final(heap).records() == old(heap).records().insert(staking.address, staking@),
{
    heap.set_staking(staking, minimal_required_staking)
}

impl StakingTable {
    /// No consensus address is listed twice in the index.
    pub closed spec fn wf(&self) -> bool {
        self.idx_validator_address.wf()
    }

    /// The table is well-formed, and index and records agree: every entry of
    /// the index leads to a record that names the address, and the records are
    /// sound.
    pub open spec fn consistent(&self, records: Map<StakedStateAddress, StakedStateView>) -> bool {
        self.wf() && consistent(self@.idx_validator_address, records)
    }

    /// The table is well-formed, index and records agree, and moreover the
    /// index holds every consensus address that a record names, and no record
    /// names an address twice.
    pub open spec fn complete(&self, records: Map<StakedStateAddress, StakedStateView>) -> bool {
        self.wf() && complete(self@.idx_validator_address, records)
    }

    /// Whether the table is fit for a request to join: where the request would
    /// take expired addresses out of the index, the index is well-formed and
    /// holds them for the account, each once.
    pub open spec fn fit_to_join(
        &self,
        records: Map<StakedStateAddress, StakedStateView>,
        block_time: Timespec,
        max_evidence_age: Timespec,
        tx: NodeJoinRequestTxView,
    ) -> bool {
        join_evicts(self@, record_of(records, tx.address), block_time, max_evidence_age, tx)
            ==> self.wf() && can_evict(
            self@.idx_validator_address,
            record_of(records, tx.address),
            block_time,
            max_evidence_age,
        )
    }

    /// What the pass over the table checks: that the index is well-formed and
    /// that every entry of it leads to a record with balances within the
    /// supply that names the address.
    pub open spec fn invariants(&self, records: Map<StakedStateAddress, StakedStateView>) -> bool {
        self.wf() && index_checked(self@.idx_validator_address, records)
    }

    /// A table that is complete for the records is fit for every request to
    /// join, at every time.
    pub proof fn lemma_complete_fit_to_join(
        &self,
        records: Map<StakedStateAddress, StakedStateView>,
        block_time: Timespec,
        max_evidence_age: Timespec,
        tx: NodeJoinRequestTxView,
    )
        requires
            self.complete(records),
        ensures
            self.fit_to_join(records, block_time, max_evidence_age, tx),
    {
        lemma_complete_can_evict(
            self@.idx_validator_address,
            records,
            tx.address,
            block_time,
            max_evidence_age,
        );
    }

    /// Where table and records agree, the invariants hold.
    pub proof fn lemma_consistent_invariants(
        &self,
        records: Map<StakedStateAddress, StakedStateView>,
    )
        requires
            self.consistent(records),
        ensures
            self.invariants(records),
    {
        lemma_consistent_checked(self@.idx_validator_address, records);
    }

    /// The pass over the whole table against the store: whether the
    /// invariants hold.
    pub fn check_invariants<S: StoreStaking>(&self, heap: &S) -> (ok: bool)
        ensures
            ok == self.invariants(heap.records()),
    {
        if !self.idx_validator_address.check_wf() {
            return false;
        }
        proof {
            self.idx_validator_address.lemma_listed();
        }
        let n = self.idx_validator_address.entry_count();
        let mut i: usize = 0;
        while i < n
            invariant
                i <= n,
                n == self.idx_validator_address.listed().len(),
                self.wf(),
                forall|j: int|
                    0 <= j < self.idx_validator_address.listed().len()
                        ==> self@.idx_validator_address.contains_key(
                        (#[trigger] self.idx_validator_address.listed()[j]).0,
                    ) && self@.idx_validator_address[self.idx_validator_address.listed()[j].0]
                        == self.idx_validator_address.listed()[j].1,
                forall|j: int|
                    0 <= j < i ==> entry_checked(
                        heap.records(),
                        (#[trigger] self.idx_validator_address.listed()[j]).0,
                        self.idx_validator_address.listed()[j].1,
                    ),
            decreases n - i,
        {
            let entry = self.idx_validator_address.entry_at(i);
            assert(self@.idx_validator_address.contains_key(entry.0));
            match heap.get(&entry.1) {
                Some(staking) => {
                    if !record_reports(&staking, &entry.0) {
                        return false;
                    }
                    if staking.bonded.value() > MAX_COIN || staking.unbonded.value() > MAX_COIN {
                        return false;
                    }
                },
                None => {
                    return false;
                },
            }
            i += 1;
        }
        proof {
            assert forall|address: TendermintValidatorAddress| #[trigger]
                self@.idx_validator_address.contains_key(address) implies entry_checked(
                heap.records(),
                address,
                self@.idx_validator_address[address],
            ) by {
                assert(has_key(self.idx_validator_address.listed(), address));
                let j = choose|j: int|
                    0 <= j < self.idx_validator_address.listed().len() && (
                    #[trigger] self.idx_validator_address.listed()[j]).0 == address;
                assert(entry_checked(
                    heap.records(),
                    self.idx_validator_address.listed()[j].0,
                    self.idx_validator_address.listed()[j].1,
                ));
            }
        }
        true
    }

    /// Whether the index is well-formed.
    pub fn check_wf(&self) -> (ok: bool)
        ensures
            ok == self.wf(),
    {
        self.idx_validator_address.check_wf()
    }

    /// Whether the index holds for the account `address` every consensus
    /// address that has left its evidence window at `block_time`, each once:
    /// what a request of the account to join then needs.
    #[verifier::loop_isolation(false)]
    pub fn can_evict<S: StoreStaking>(
        &self,
        heap: &S,
        address: &StakedStateAddress,
        block_time: Timespec,
        max_evidence_age: Timespec,
    ) -> (ok: bool)
        ensures
            ok == can_evict(
                self@.idx_validator_address,
                record_of(heap.records(), *address),
                block_time,
                max_evidence_age,
            ),
    {
        let staking = self.get_or_default(heap, address);
        match &staking.node_meta {
            Some(NodeState::CouncilNode(validator)) => {
                let gone = out_of_date_addresses(
                    &validator.used_validator_addresses,
                    block_time,
                    max_evidence_age,
                );
                let mut k: usize = 0;
                while k < gone.len()
                    invariant
                        k <= gone.len(),
                        forall|m: int|
                            0 <= m < k ==> self@.idx_validator_address.contains_key(
                                #[trigger] gone@[m],
                            ) && self@.idx_validator_address[gone@[m]] == *address,
                        forall|a: int, b: int| 0 <= a < b < k ==> gone@[a] != gone@[b],
                    decreases gone.len() - k,
                {
                    match self.idx_validator_address.get(&gone[k]) {
                        Some(owner) => {
                            if owner != *address {
                                return false;
                            }
                        },
                        None => {
                            return false;
                        },
                    }
                    let mut m: usize = 0;
                    while m < k
                        invariant
                            m <= k < gone.len(),
                            forall|a: int| 0 <= a < m ==> gone@[a] != gone@[k as int],
                        decreases k - m,
                    {
                        if gone[m] == gone[k] {
                            return false;
                        }
                        m += 1;
                    }
                    k += 1;
                }
                true
            },
            _ => true,
        }
    }

    /// Whether the table is fit for the request `tx` to join at `block_time`:
    /// what [`StakingTable::node_join`] asks of it.
    pub fn is_fit_to_join<S: StoreStaking>(
        &self,
        heap: &S,
        block_time: Timespec,
        max_evidence_age: Timespec,
        tx: &NodeJoinRequestTx,
    ) -> (ok: bool)
        ensures
            ok == self.fit_to_join(heap.records(), block_time, max_evidence_age, tx@),
    {
        let staking = self.get_or_default(heap, &tx.address);
        if tx.nonce != staking.nonce {
            return true;
        }
        if staking.bonded.less_than(&self.minimal_required_staking) {
            return true;
        }
        let council_node = match &tx.node_meta {
            NodeMetadata::CouncilNode(council_node) => council_node,
            NodeMetadata::CommunityNode(_) => {
                return true;
            },
        };
        let val_addr = TendermintValidatorAddress::from_pubkey(&council_node.consensus_pubkey);
        match &staking.node_meta {
            Some(NodeState::CouncilNode(validator)) => {
                if validator.is_jailed() || validator.is_active() {
                    return true;
                }
                if validator.validator_address() == val_addr {
                    return true;
                }
                if let Some(owner) = self.idx_validator_address.get(&val_addr) {
                    if owner != tx.address {
                        return true;
                    }
                }
                let gone = out_of_date_addresses(
                    &validator.used_validator_addresses,
                    block_time,
                    max_evidence_age,
                );
                proof {
                    lemma_window_divided(
                        validator.used_validator_addresses@,
                        block_time,
                        max_evidence_age,
                    );
                }
                if validator.used_validator_addresses.len() - gone.len()
                    >= MAX_USED_VALIDATOR_ADDR {
                    return true;
                }
                self.idx_validator_address.check_wf() && self.can_evict(
                    heap,
                    &tx.address,
                    block_time,
                    max_evidence_age,
                )
            },
            _ => true,
        }
    }

    /// The table with no consensus address in use.
    pub fn new(minimal_required_staking: Coin) -> (table: StakingTable)
        ensures
            table.wf(),
            table@ == (StakingTableView {
                idx_validator_address: Map::empty(),
                minimal_required_staking: minimal_required_staking@,
            }),
            table.consistent(Map::empty()),
            table.complete(Map::empty()),
    {
        StakingTable { idx_validator_address: ValidatorIndex::new(), minimal_required_staking }
    }

    /// The bonded amount required of a validator.
    pub fn minimal_required_staking(&self) -> (amount: Coin)
        ensures
            amount@ == self@.minimal_required_staking,
    {
        self.minimal_required_staking
    }

    /// The index of consensus addresses.
    pub fn validator_addresses(&self) -> (index: &ValidatorIndex)
        ensures
            index@ == self@.idx_validator_address,
            index.wf() == self.wf(),
    {
        &self.idx_validator_address
    }

    /// The account that owns a consensus address, if the address is in use.
    pub fn lookup_address(&self, address: &TendermintValidatorAddress) -> (owner: Option<
        StakedStateAddress,
    >)
        ensures
            owner == if self@.idx_validator_address.contains_key(*address) {
                Some(self@.idx_validator_address[*address])
            } else {
                None
            },
    {
        self.idx_validator_address.get(address)
    }

    /// Makes `owner` the owner of the consensus address `address`, and returns
    /// the owner it had.
    pub(crate) fn insert_validator_address(
        &mut self,
        address: TendermintValidatorAddress,
        owner: StakedStateAddress,
    ) -> (before: Option<StakedStateAddress>)
        ensures
            old(self).wf() ==> final(self).wf(),
            final(self)@ == (StakingTableView {
                idx_validator_address: old(self)@.idx_validator_address.insert(address, owner),
                ..old(self)@
            }),
            before == if old(self)@.idx_validator_address.contains_key(address) {
                Some(old(self)@.idx_validator_address[address])
            } else {
                None
            },
    {
        self.idx_validator_address.insert(address, owner)
    }

    /// Takes the consensus address `address` out of use, and returns the owner
    /// it had.
    pub(crate) fn remove_validator_address(&mut self, address: &TendermintValidatorAddress) -> (before:
        Option<StakedStateAddress>)
        requires
            old(self).wf(),
        ensures
            final(self).wf(),
            final(self)@ == (StakingTableView {
                idx_validator_address: old(self)@.idx_validator_address.remove(*address),
                ..old(self)@
            }),
            before == if old(self)@.idx_validator_address.contains_key(*address) {
                Some(old(self)@.idx_validator_address[*address])
            } else {
                None
            },
    {
        self.idx_validator_address.remove(address)
    }

    /// How many consensus addresses are in use.
    pub fn validator_address_count(&self) -> (n: usize)
        requires
            self.wf(),
        ensures
            self@.idx_validator_address.dom().finite(),
            n == self@.idx_validator_address.len(),
    {
        self.idx_validator_address.len()
    }

    /// The record of `address` in the store, or a new one.
    pub fn get_or_default<S: StoreStaking>(&self, heap: &S, address: &StakedStateAddress) -> (staking:
        StakedState)
        ensures
            staking@ == record_of(heap.records(), *address),
            staking.address == *address,
    {
        match heap.get(address) {
            Some(staking) => staking,
            None => StakedState::default(*address),
        }
    }

    /// Adds `amount` to the bonded amount of `staking`, unless the sum leaves
    /// the range of the currency.
    pub(crate) fn add_bonded(&self, amount: Coin, staking: &mut StakedState) -> (r: Result<
        (),
        CoinError,
    >)
        ensures
            match r {
                Ok(_) => {
                    &&& old(staking)@.bonded + amount@ <= MAX_COIN
                    &&& final(staking)@ == (StakedStateView {
                        bonded: old(staking)@.bonded + amount@,
                        ..old(staking)@
                    })
                },
                Err(e) => {
                    &&& old(staking)@.bonded + amount@ > MAX_COIN
                    &&& e == CoinError::OutOfBound
                    &&& *final(staking) == *old(staking)
                },
            },
    {
        match staking.bonded.checked_add(amount) {
            Ok(bonded) => {
                staking.bonded = bonded;
                Ok(())
            },
            Err(e) => Err(e),
        }
    }

    /// Takes `amount` from the bonded amount of `staking`, unless it is not
    /// there.
    pub(crate) fn sub_bonded(&self, amount: Coin, staking: &mut StakedState) -> (r: Result<
        (),
        CoinError,
    >)
        ensures
            match r {
                Ok(_) => {
                    &&& amount@ <= old(staking)@.bonded
                    &&& final(staking)@ == (StakedStateView {
                        bonded: (old(staking)@.bonded - amount@) as nat,
                        ..old(staking)@
                    })
                },
                Err(e) => {
                    &&& amount@ > old(staking)@.bonded
                    &&& e == CoinError::Negative
                    &&& *final(staking) == *old(staking)
                },
            },
    {
        match staking.bonded.checked_sub(amount) {
            Ok(bonded) => {
                staking.bonded = bonded;
                Ok(())
            },
            Err(e) => Err(e),
        }
    }
}

} // verus!
