//! What holds of index and records together, whatever operations have run.
//!
//! The index is derived from the records. Two things are said of the pair.
//! They agree when every entry of the index leads to a record that names the
//! address, in use or in its window: every operation keeps that. They are
//! complete when, moreover, the index holds every address that a record
//! names and no record names an address twice: every operation keeps that
//! too, but a request to join that takes back an address still in the window
//! of the account.

use crate::account::{NodeState, StakedState, StakedStateView};
use crate::address::{StakedStateAddress, TendermintValidatorAddress, Timespec};
use crate::coin::MAX_COIN;
use crate::enclave::{AttestationInfo, VerifyError};
use crate::nodejoin::NodeJoinRequestTxView;
use crate::rotation::{addresses_distinct, expired_addresses, lemma_window_distinct,
    lemma_window_divided, live_entries, uses, MAX_USED_VALIDATOR_ADDR};
use crate::table::record_of;
use crate::tx::{can_evict, deposit_step, node_join_step, takes_back, unbond_step, unjail_step,
    withdraw_step, written};
use vstd::prelude::*;

verus! {

/// The records of the store.
pub type Records = Map<StakedStateAddress, StakedStateView>;

/// The index of consensus addresses.
pub type AddressIndex = Map<TendermintValidatorAddress, StakedStateAddress>;

/// A record is sound when its balances are within the supply and the window
/// of addresses given up is within its bound.
pub open spec fn record_sound(state: StakedStateView) -> bool {
    &&& state.bonded <= MAX_COIN
    &&& state.unbonded <= MAX_COIN
    &&& match state.validator() {
        Some(validator) => validator.used_validator_addresses.len() <= MAX_USED_VALIDATOR_ADDR,
        None => true,
    }
}

/// The window of a record is sound when it repeats no address and does not
/// hold the address in use.
pub open spec fn window_sound(state: StakedStateView) -> bool {
    match state.validator() {
        Some(validator) => {
            &&& addresses_distinct(validator.used_validator_addresses)
            &&& !uses(validator.used_validator_addresses, validator.validator_address())
        },
        None => true,
    }
}

/// Whether the record names `address` as a consensus address of its account:
/// the one in use, or one in the window.
pub open spec fn reports(state: StakedStateView, address: TendermintValidatorAddress) -> bool {
    match state.validator() {
        Some(validator) => validator.validator_address() == address || uses(
            validator.used_validator_addresses,
            address,
        ),
        None => false,
    }
}

/// Whether the index holds every consensus address that the record names,
/// under the account of the record.
pub open spec fn indexed(idx: AddressIndex, state: StakedStateView) -> bool {
    forall|address: TendermintValidatorAddress| #[trigger]
        reports(state, address) ==> idx.contains_key(address) && idx[address] == state.address
}

/// Every entry of the index leads to a record that names the address.
pub open spec fn index_sound(idx: AddressIndex, records: Records) -> bool {
    forall|address: TendermintValidatorAddress| #[trigger]
        idx.contains_key(address) ==> records.contains_key(idx[address]) && reports(
            records[idx[address]],
            address,
        )
}

/// Every record is kept under the account it names and is sound.
pub open spec fn accounts_sound(records: Records) -> bool {
    forall|account: StakedStateAddress| #[trigger]
        records.contains_key(account) ==> records[account].address == account && record_sound(
            records[account],
        )
}

/// Index and records agree.
pub open spec fn consistent(idx: AddressIndex, records: Records) -> bool {
    index_sound(idx, records) && accounts_sound(records)
}

/// Every record has the consensus addresses it names in the index, and a
/// sound window.
pub open spec fn accounts_indexed(idx: AddressIndex, records: Records) -> bool {
    forall|account: StakedStateAddress| #[trigger]
        records.contains_key(account) ==> indexed(idx, records[account]) && window_sound(
            records[account],
        )
}

/// Index and records agree, and the index holds all that the records name.
pub open spec fn complete(idx: AddressIndex, records: Records) -> bool {
    consistent(idx, records) && accounts_indexed(idx, records)
}

/// What the check of an entry of the index asks: that the owner has a record,
/// that the record names the address, and that its balances are within the
/// supply.
pub open spec fn entry_checked(
    records: Records,
    address: TendermintValidatorAddress,
    owner: StakedStateAddress,
) -> bool {
    &&& records.contains_key(owner)
    &&& reports(records[owner], address)
    &&& records[owner].bonded <= MAX_COIN
    &&& records[owner].unbonded <= MAX_COIN
}

/// Every entry of the index passes the check.
pub open spec fn index_checked(idx: AddressIndex, records: Records) -> bool {
    forall|address: TendermintValidatorAddress| #[trigger]
        idx.contains_key(address) ==> entry_checked(records, address, idx[address])
}

/// Where index and records agree, every entry of the index passes the check.
pub proof fn lemma_consistent_checked(idx: AddressIndex, records: Records)
    requires
        consistent(idx, records),
    ensures
        index_checked(idx, records),
{
    assert forall|address: TendermintValidatorAddress| #[trigger]
        idx.contains_key(address) implies entry_checked(records, address, idx[address]) by {
        assert(records.contains_key(idx[address]));
    }
}

/// Whether the record names `address` as a consensus address of its account.
#[verifier::loop_isolation(false)]
pub fn record_reports(staking: &StakedState, address: &TendermintValidatorAddress) -> (named: bool)
    ensures
        named == reports(staking@, *address),
{
    match &staking.node_meta {
        Some(NodeState::CouncilNode(validator)) => {
            if validator.validator_address() == *address {
                return true;
            }
            let mut i: usize = 0;
            while i < validator.used_validator_addresses.len()
                invariant
                    i <= validator.used_validator_addresses.len(),
                    forall|j: int|
                        0 <= j < i ==> (#[trigger] validator.used_validator_addresses@[j]).0
                            != *address,
                decreases validator.used_validator_addresses.len() - i,
            {
                if validator.used_validator_addresses[i].0 == *address {
                    return true;
                }
                i += 1;
            }
            false
        },
        _ => false,
    }
}

/// Whether two records name the same consensus addresses.
pub open spec fn same_addresses(a: StakedStateView, b: StakedStateView) -> bool {
    match (a.validator(), b.validator()) {
        (Some(x), Some(y)) => x.validator_address() == y.validator_address()
            && x.used_validator_addresses == y.used_validator_addresses,
        (None, None) => true,
        _ => false,
    }
}

/// The record of any account of consistent records is kept under its account
/// and is sound, whether the store has it or not.
pub proof fn lemma_record_of_consistent(
    idx: AddressIndex,
    records: Records,
    account: StakedStateAddress,
)
    requires
        consistent(idx, records),
    ensures
        record_of(records, account).address == account,
        record_sound(record_of(records, account)),
{
    if records.contains_key(account) {
    } else {
        assert(record_of(records, account).validator() is None);
    }
}

/// The record of any account of complete records has its consensus addresses
/// in the index and a sound window, whether the store has it or not.
pub proof fn lemma_record_of_complete(
    idx: AddressIndex,
    records: Records,
    account: StakedStateAddress,
)
    requires
        complete(idx, records),
    ensures
        indexed(idx, record_of(records, account)),
        window_sound(record_of(records, account)),
{
    if records.contains_key(account) {
    } else {
        assert(record_of(records, account).validator() is None);
    }
}

/// Where index and records are complete, a request to join finds in the
/// index what it would take out: whatever the account and the time.
pub proof fn lemma_complete_can_evict(
    idx: AddressIndex,
    records: Records,
    account: StakedStateAddress,
    block_time: Timespec,
    max_evidence_age: Timespec,
)
    requires
        complete(idx, records),
    ensures
        can_evict(idx, record_of(records, account), block_time, max_evidence_age),
{
    let state = record_of(records, account);
    lemma_record_of_complete(idx, records, account);
    if let Some(validator) = state.validator() {
        let used = validator.used_validator_addresses;
        let gone = expired_addresses(used, block_time, max_evidence_age);
        lemma_window_divided(used, block_time, max_evidence_age);
        lemma_window_distinct(used, block_time, max_evidence_age);
        assert forall|i: int| 0 <= i < gone.len() implies idx.contains_key(#[trigger] gone[i])
            && idx[gone[i]] == state.address by {
            assert(gone.contains(gone[i]));
            assert(uses(used, gone[i]));
            assert(reports(state, gone[i]));
        }
    }
}

/// Putting in place of a record one with balances within the supply that
/// names the same consensus addresses keeps index and records in agreement,
/// and complete where they were.
pub proof fn lemma_change_keeps_consistent(
    idx: AddressIndex,
    records: Records,
    account: StakedStateAddress,
    next: StakedStateView,
)
    requires
        consistent(idx, records),
        next.address == account,
        next.bonded <= MAX_COIN,
        next.unbonded <= MAX_COIN,
        same_addresses(record_of(records, account), next),
    ensures
        consistent(idx, records.insert(account, next)),
        complete(idx, records) ==> complete(idx, records.insert(account, next)),
{
    let state = record_of(records, account);
    let after = records.insert(account, next);
    lemma_record_of_consistent(idx, records, account);
    assert forall|address: TendermintValidatorAddress| #[trigger]
        idx.contains_key(address) implies after.contains_key(idx[address]) && reports(
        after[idx[address]],
        address,
    ) by {
        assert(records.contains_key(idx[address]) && reports(records[idx[address]], address));
    }
    if complete(idx, records) {
        lemma_record_of_complete(idx, records, account);
        assert forall|address: TendermintValidatorAddress| #[trigger]
            reports(next, address) implies idx.contains_key(address) && idx[address]
            == next.address by {
            assert(reports(state, address));
        }
    }
}

/// A request to be released from jail keeps index and records in agreement,
/// and complete where they were.
pub proof fn lemma_unjail_keeps_consistent(
    idx: AddressIndex,
    records: Records,
    account: StakedStateAddress,
    nonce: u64,
    block_time: Timespec,
)
    requires
        consistent(idx, records),
    ensures
        consistent(
            idx,
            written(records, account, unjail_step(record_of(records, account), nonce, block_time)),
        ),
        complete(idx, records) ==> complete(
            idx,
            written(records, account, unjail_step(record_of(records, account), nonce, block_time)),
        ),
{
    lemma_record_of_consistent(idx, records, account);
    if let Ok(next) = unjail_step(record_of(records, account), nonce, block_time) {
        lemma_change_keeps_consistent(idx, records, account, next);
    }
}

/// A deposit keeps index and records in agreement, and complete where they
/// were.
pub proof fn lemma_deposit_keeps_consistent(
    idx: AddressIndex,
    records: Records,
    account: StakedStateAddress,
    amount: nat,
)
    requires
        consistent(idx, records),
    ensures
        consistent(idx, written(records, account, deposit_step(record_of(records, account), amount))),
        complete(idx, records) ==> complete(
            idx,
            written(records, account, deposit_step(record_of(records, account), amount)),
        ),
{
    lemma_record_of_consistent(idx, records, account);
    if let Ok(next) = deposit_step(record_of(records, account), amount) {
        lemma_change_keeps_consistent(idx, records, account, next);
    }
}

/// A request to unbond keeps index and records in agreement, and complete
/// where they were.
pub proof fn lemma_unbond_keeps_consistent(
    idx: AddressIndex,
    records: Records,
    account: StakedStateAddress,
    nonce: u64,
    value: nat,
    fee: nat,
    unbonding_period: Timespec,
    block_time: Timespec,
)
    requires
        consistent(idx, records),
    ensures
        consistent(
            idx,
            written(
                records,
                account,
                unbond_step(
                    record_of(records, account),
                    nonce,
                    value,
                    fee,
                    unbonding_period,
                    block_time,
                ),
            ),
        ),
        complete(idx, records) ==> complete(
            idx,
            written(
                records,
                account,
                unbond_step(
                    record_of(records, account),
                    nonce,
                    value,
                    fee,
                    unbonding_period,
                    block_time,
                ),
            ),
        ),
{
    lemma_record_of_consistent(idx, records, account);
    if let Ok(next) = unbond_step(
        record_of(records, account),
        nonce,
        value,
        fee,
        unbonding_period,
        block_time,
    ) {
        lemma_change_keeps_consistent(idx, records, account, next);
    }
}

/// A withdrawal keeps index and records in agreement, and complete where
/// they were.
pub proof fn lemma_withdraw_keeps_consistent(
    idx: AddressIndex,
    records: Records,
    account: StakedStateAddress,
    block_time: Timespec,
    amount: nat,
)
    requires
        consistent(idx, records),
    ensures
        consistent(
            idx,
            written(records, account, withdraw_step(record_of(records, account), block_time, amount)),
        ),
        complete(idx, records) ==> complete(
            idx,
            written(records, account, withdraw_step(record_of(records, account), block_time, amount)),
        ),
{
    lemma_record_of_consistent(idx, records, account);
    if let Ok(next) = withdraw_step(record_of(records, account), block_time, amount) {
        lemma_change_keeps_consistent(idx, records, account, next);
    }
}

/// A request to join keeps index and records in agreement. It keeps them
/// complete where they were, unless it takes back an address that is still in
/// the window of the account.
pub proof fn lemma_node_join_keeps_consistent(
    idx: AddressIndex,
    minimal_required_staking: nat,
    records: Records,
    block_time: Timespec,
    max_evidence_age: Timespec,
    recent_isv_svn: u16,
    tx: NodeJoinRequestTxView,
    verdict: Result<AttestationInfo, VerifyError>,
)
    requires
        consistent(idx, records),
    ensures
        match node_join_step(
            idx,
            minimal_required_staking,
            record_of(records, tx.address),
            block_time,
            max_evidence_age,
            recent_isv_svn,
            tx,
            verdict,
        ) {
            Ok(joined) => {
                &&& consistent(
                    joined.idx_validator_address,
                    records.insert(tx.address, joined.record),
                )
                &&& complete(idx, records) && !takes_back(
                    record_of(records, tx.address),
                    block_time,
                    max_evidence_age,
                    tx,
                ) ==> complete(
                    joined.idx_validator_address,
                    records.insert(tx.address, joined.record),
                )
            },
            Err(_) => true,
        },
{
    let state = record_of(records, tx.address);
    let step = node_join_step(
        idx,
        minimal_required_staking,
        state,
        block_time,
        max_evidence_age,
        recent_isv_svn,
        tx,
        verdict,
    );
    lemma_record_of_consistent(idx, records, tx.address);
    if let Ok(joined) = step {
        let address = tx.node_meta->CouncilNode_0.validator_address();
        match state.validator() {
            Some(validator) => {
                if validator.validator_address() == address {
                    lemma_change_keeps_consistent(idx, records, tx.address, joined.record);
                } else {
                    lemma_rotation_keeps_consistent(
                        idx,
                        records,
                        state,
                        block_time,
                        max_evidence_age,
                        joined.idx_validator_address,
                        joined.record,
                    );
                    if complete(idx, records) && !takes_back(
                        state,
                        block_time,
                        max_evidence_age,
                        tx,
                    ) {
                        lemma_rotation_keeps_complete(
                            idx,
                            records,
                            state,
                            block_time,
                            max_evidence_age,
                            joined.idx_validator_address,
                            joined.record,
                        );
                    }
                }
            },
            None => {
                lemma_first_join_keeps_consistent(
                    idx,
                    records,
                    state,
                    joined.idx_validator_address,
                    joined.record,
                );
            },
        }
    }
}

/// The first joining of an account keeps index and records in agreement, and
/// complete where they were: the record becomes that of a validator with an
/// address that was free and an empty window, and the address enters the
/// index.
proof fn lemma_first_join_keeps_consistent(
    idx: AddressIndex,
    records: Records,
    state: StakedStateView,
    idx_after: AddressIndex,
    next: StakedStateView,
)
    requires
        consistent(idx, records),
        state == record_of(records, state.address),
        state.validator() is None,
        next.validator() is Some,
        next.address == state.address,
        next.bonded == state.bonded,
        next.unbonded == state.unbonded,
        next.validator()->0.used_validator_addresses.len() == 0,
        !idx.contains_key(next.validator()->0.validator_address()),
        idx_after == idx.insert(next.validator()->0.validator_address(), state.address),
    ensures
        consistent(idx_after, records.insert(state.address, next)),
        complete(idx, records) ==> complete(idx_after, records.insert(state.address, next)),
{
    let account = state.address;
    let joining = next.validator()->0.validator_address();
    let after = records.insert(account, next);
    lemma_record_of_consistent(idx, records, account);
    assert forall|a: TendermintValidatorAddress| #[trigger]
        idx_after.contains_key(a) implies after.contains_key(idx_after[a]) && reports(
        after[idx_after[a]],
        a,
    ) by {
        if a != joining {
            assert(idx.contains_key(a));
            assert(records.contains_key(idx[a]) && reports(records[idx[a]], a));
        }
    }
    if complete(idx, records) {
        assert forall|other: StakedStateAddress| #[trigger]
            after.contains_key(other) implies indexed(idx_after, after[other]) && window_sound(
            after[other],
        ) by {
            if other == account {
                assert forall|a: TendermintValidatorAddress| #[trigger]
                    reports(next, a) implies idx_after.contains_key(a) && idx_after[a]
                    == next.address by {
                    assert(!uses(next.validator()->0.used_validator_addresses, a));
                }
            } else {
                assert(records.contains_key(other));
                assert forall|a: TendermintValidatorAddress| #[trigger]
                    reports(after[other], a) implies idx_after.contains_key(a) && idx_after[a]
                    == after[other].address by {
                    assert(idx.contains_key(a) && idx[a] == other);
                }
            }
        }
    }
}

/// What a rotation is: the record of an inactive validator comes back with
/// another consensus address; the expired entries have left the window and
/// the old address has entered it; the expired addresses have left the index
/// and the new address has entered it under the account.
spec fn is_rotation(
    idx: AddressIndex,
    records: Records,
    state: StakedStateView,
    block_time: Timespec,
    max_evidence_age: Timespec,
    idx_after: AddressIndex,
    next: StakedStateView,
) -> bool {
    &&& state == record_of(records, state.address)
    &&& state.validator() is Some
    &&& next.validator() is Some
    &&& next.address == state.address
    &&& next.bonded == state.bonded
    &&& next.unbonded == state.unbonded
    &&& next.validator()->0.validator_address() != state.validator()->0.validator_address()
    &&& live_entries(
        state.validator()->0.used_validator_addresses,
        block_time,
        max_evidence_age,
    ).len() < MAX_USED_VALIDATOR_ADDR
    &&& next.validator()->0.used_validator_addresses == live_entries(
        state.validator()->0.used_validator_addresses,
        block_time,
        max_evidence_age,
    ).push((state.validator()->0.validator_address(), block_time))
    &&& idx_after == idx.remove_keys(
        expired_addresses(
            state.validator()->0.used_validator_addresses,
            block_time,
            max_evidence_age,
        ).to_set(),
    ).insert(next.validator()->0.validator_address(), state.address)
}

/// What the window holds after a rotation: the live entries and the address
/// given up.
proof fn lemma_rotated_window(
    idx: AddressIndex,
    records: Records,
    state: StakedStateView,
    block_time: Timespec,
    max_evidence_age: Timespec,
    idx_after: AddressIndex,
    next: StakedStateView,
)
    requires
        is_rotation(idx, records, state, block_time, max_evidence_age, idx_after, next),
    ensures
        uses(
            next.validator()->0.used_validator_addresses,
            state.validator()->0.validator_address(),
        ),
        forall|a: TendermintValidatorAddress| #[trigger]
            uses(next.validator()->0.used_validator_addresses, a) ==> a
                == state.validator()->0.validator_address() || uses(
                live_entries(
                    state.validator()->0.used_validator_addresses,
                    block_time,
                    max_evidence_age,
                ),
                a,
            ),
        forall|a: TendermintValidatorAddress| #[trigger]
            uses(
                live_entries(
                    state.validator()->0.used_validator_addresses,
                    block_time,
                    max_evidence_age,
                ),
                a,
            ) ==> uses(next.validator()->0.used_validator_addresses, a),
{
    let leaving = state.validator()->0.validator_address();
    let live = live_entries(
        state.validator()->0.used_validator_addresses,
        block_time,
        max_evidence_age,
    );
    let window = next.validator()->0.used_validator_addresses;
    assert forall|a: TendermintValidatorAddress| #[trigger] uses(window, a) implies a == leaving
        || uses(live, a) by {
        let i = choose|i: int| 0 <= i < window.len() && (#[trigger] window[i]).0 == a;
        if i < live.len() {
            assert(live[i].0 == a);
        }
    }
    assert(uses(window, leaving)) by {
        assert(window[live.len() as int].0 == leaving);
    }
    assert forall|a: TendermintValidatorAddress| #[trigger] uses(live, a) implies uses(
        window,
        a,
    ) by {
        let i = choose|i: int| 0 <= i < live.len() && (#[trigger] live[i]).0 == a;
        assert(window[i].0 == a);
    }
}

/// A rotation keeps index and records in agreement.
proof fn lemma_rotation_keeps_consistent(
    idx: AddressIndex,
    records: Records,
    state: StakedStateView,
    block_time: Timespec,
    max_evidence_age: Timespec,
    idx_after: AddressIndex,
    next: StakedStateView,
)
    requires
        consistent(idx, records),
        is_rotation(idx, records, state, block_time, max_evidence_age, idx_after, next),
    ensures
        consistent(idx_after, records.insert(state.address, next)),
{
    let account = state.address;
    let leaving = state.validator()->0.validator_address();
    let joining = next.validator()->0.validator_address();
    let used = state.validator()->0.used_validator_addresses;
    let live = live_entries(used, block_time, max_evidence_age);
    let gone = expired_addresses(used, block_time, max_evidence_age);
    let window = next.validator()->0.used_validator_addresses;
    let after = records.insert(account, next);
    lemma_record_of_consistent(idx, records, account);
    lemma_window_divided(used, block_time, max_evidence_age);
    lemma_rotated_window(idx, records, state, block_time, max_evidence_age, idx_after, next);
    assert(records.contains_key(account));
    assert forall|a: TendermintValidatorAddress| #[trigger]
        idx_after.contains_key(a) implies after.contains_key(idx_after[a]) && reports(
        after[idx_after[a]],
        a,
    ) by {
        if a != joining {
            assert(idx.contains_key(a) && !gone.contains(a));
            assert(records.contains_key(idx[a]) && reports(records[idx[a]], a));
            if idx[a] == account {
                if a != leaving {
                    assert(uses(used, a));
                    assert(uses(live, a));
                    assert(uses(window, a));
                }
            }
        }
    }
}

/// A rotation to an address that no other account owns and that is not in
/// the live part of the window keeps index and records complete.
proof fn lemma_rotation_keeps_complete(
    idx: AddressIndex,
    records: Records,
    state: StakedStateView,
    block_time: Timespec,
    max_evidence_age: Timespec,
    idx_after: AddressIndex,
    next: StakedStateView,
)
    requires
        complete(idx, records),
        is_rotation(idx, records, state, block_time, max_evidence_age, idx_after, next),
        idx.contains_key(next.validator()->0.validator_address()) ==> idx[next.validator()->0.validator_address()]
            == state.address,
        !uses(
            live_entries(
                state.validator()->0.used_validator_addresses,
                block_time,
                max_evidence_age,
            ),
            next.validator()->0.validator_address(),
        ),
    ensures
        complete(idx_after, records.insert(state.address, next)),
{
    let account = state.address;
    let leaving = state.validator()->0.validator_address();
    let joining = next.validator()->0.validator_address();
    let used = state.validator()->0.used_validator_addresses;
    let live = live_entries(used, block_time, max_evidence_age);
    let gone = expired_addresses(used, block_time, max_evidence_age);
    let window = next.validator()->0.used_validator_addresses;
    let after = records.insert(account, next);
    lemma_rotation_keeps_consistent(
        idx,
        records,
        state,
        block_time,
        max_evidence_age,
        idx_after,
        next,
    );
    lemma_record_of_consistent(idx, records, account);
    lemma_record_of_complete(idx, records, account);
    lemma_window_divided(used, block_time, max_evidence_age);
    lemma_window_distinct(used, block_time, max_evidence_age);
    lemma_rotated_window(idx, records, state, block_time, max_evidence_age, idx_after, next);
    assert(records.contains_key(account));
    assert(reports(state, leaving));

    // Every address that the account named, and that has not expired, is still
    // in the index under the account.
    assert forall|a: TendermintValidatorAddress| a == leaving || uses(live, a) implies #[trigger]
        idx_after.contains_key(a) && idx_after[a] == account by {
        assert(reports(state, a));
        if gone.contains(a) {
            assert(uses(used, a));
        }
    }

    assert(window_sound(next)) by {
        assert(addresses_distinct(window)) by {
            assert forall|i: int, j: int| 0 <= i < j < window.len() implies (
            #[trigger] window[i]).0 != (#[trigger] window[j]).0 by {
                if j < live.len() {
                    assert(live[i].0 != live[j].0);
                } else {
                    if live[i].0 == leaving {
                        assert(uses(live, leaving));
                    }
                }
            }
        }
    }

    assert forall|other: StakedStateAddress| #[trigger]
        after.contains_key(other) implies indexed(idx_after, after[other]) && window_sound(
        after[other],
    ) by {
        if other == account {
            assert forall|a: TendermintValidatorAddress| #[trigger]
                reports(next, a) implies idx_after.contains_key(a) && idx_after[a]
                == next.address by {
                if a != joining {
                    assert(uses(window, a));
                }
            }
        } else {
            assert(records.contains_key(other));
            assert forall|a: TendermintValidatorAddress| #[trigger]
                reports(after[other], a) implies idx_after.contains_key(a) && idx_after[a]
                == after[other].address by {
                assert(idx.contains_key(a) && idx[a] == other);
                if gone.contains(a) {
                    assert(uses(used, a));
                    assert(reports(state, a));
                }
            }
        }
    }
}

} // verus!
