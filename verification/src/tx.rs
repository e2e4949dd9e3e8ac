//! The operations that change staking records.
//!
//! Each operation reads the record of one account, checks the request against
//! it, and either writes the changed record back or rejects the request and
//! changes nothing. What an operation does to a record is a function of the
//! record and the request, given here for each; the operation itself is that
//! function applied to the store.

use crate::account::{NodeMetadata, NodeMetadataView, NodeState, NodeStateView, Nonce, StakedState,
    StakedStateView, UnbondTx, UnjailTx, Validator, ValidatorView};
use crate::address::{BlockHeight, StakedStateAddress, TendermintValidatorAddress, Timespec};
use crate::coin::{coin_of, lemma_coin_of, Coin, CoinError, MAX_COIN};
use crate::enclave::{AttestationInfo, VerifyError};
use crate::fee::Fee;
use crate::invariants::{lemma_deposit_keeps_consistent, lemma_node_join_keeps_consistent,
    lemma_unbond_keeps_consistent, lemma_unjail_keeps_consistent, lemma_withdraw_keeps_consistent};
use crate::nodejoin::{NodeJoinRequestTx, NodeJoinRequestTxView};
use crate::rotation::{add_old_val_addr, expired_addresses, live_entries, uses, UsedAddress,
    MAX_USED_VALIDATOR_ADDR};
use crate::store::StoreStaking;
use crate::table::{record_of, set_staking, StakingTable, StakingTableView};
use crate::tx_error::{DepositError, NodeJoinError, PublicTxError, UnbondError, UnjailError,
    WithdrawError};
use vstd::prelude::*;

verus! {

/// The records after an operation on the account `address`: with the changed
/// record in place where the operation was accepted, as before where it was
/// rejected.
pub open spec fn written<E>(
    before: Map<StakedStateAddress, StakedStateView>,
    address: StakedStateAddress,
    step: Result<StakedStateView, E>,
) -> Map<StakedStateAddress, StakedStateView> {
    match step {
        Ok(next) => before.insert(address, next),
        Err(_) => before,
    }
}

/// The answer to an operation that has nothing to report but its rejection.
pub open spec fn answer<E>(step: Result<StakedStateView, E>) -> Result<(), E> {
    match step {
        Ok(_) => Ok(()),
        Err(e) => Err(e),
    }
}

/// What an accepted request to join leaves behind.
pub struct NodeJoined {
    /// The index of consensus addresses.
    pub idx_validator_address: Map<TendermintValidatorAddress, StakedStateAddress>,
    /// The record of the account.
    pub record: StakedStateView,
    /// The enclave version to go on with: the attested one or the one known
    /// before, whichever is later.
    pub isv_svn: u16,
}

/// The record of a validator that joins again: with what it declares now, and
/// in the active set.
pub open spec fn rejoined(
    state: StakedStateView,
    validator: ValidatorView,
    tx: NodeJoinRequestTxView,
) -> StakedStateView {
    StakedStateView {
        nonce: state.next_nonce(),
        node_meta: Some(
            NodeStateView::CouncilNode(
                ValidatorView {
                    council_node: tx.node_meta->CouncilNode_0,
                    inactive_time: None,
                    inactive_block: None,
                    ..validator
                },
            ),
        ),
        ..state
    }
}

/// What a request to join as a validator does to the index and to the record
/// of the account, given the verdict on the membership package.
///
/// In this order: the nonce must be that of the record; the bonded amount at
/// least the minimum required; the membership package must pass; the role
/// asked for must be that of a council node; an account that is a validator
/// must be neither jailed nor active.
///
/// A validator that comes back with the consensus address it had keeps the
/// index as it is. One that comes back with another address must not find
/// that address in the index under another account, and must find room in its
/// window of addresses given up: then the expired entries leave the window
/// and their addresses the index, the old address enters the window, and the
/// new address enters the index under the account. An account that was no
/// validator must find the address free, and enters the index with it.
pub open spec fn node_join_step(
    idx_validator_address: Map<TendermintValidatorAddress, StakedStateAddress>,
    minimal_required_staking: nat,
    state: StakedStateView,
    block_time: Timespec,
    max_evidence_age: Timespec,
    recent_isv_svn: u16,
    tx: NodeJoinRequestTxView,
    verdict: Result<AttestationInfo, VerifyError>,
) -> Result<NodeJoined, PublicTxError> {
    if tx.nonce != state.nonce {
        Err(PublicTxError::IncorrectNonce)
    } else if state.bonded < minimal_required_staking {
        Err(PublicTxError::NodeJoin(NodeJoinError::BondedNotEnough))
    } else {
        match (verdict, tx.node_meta) {
            (Err(VerifyError::Decode), _) => Err(
                PublicTxError::NodeJoin(NodeJoinError::KeyPackageDecodeError),
            ),
            (Err(VerifyError::Verify), _) => Err(
                PublicTxError::NodeJoin(NodeJoinError::KeyPackageVerifyError),
            ),
            (Ok(_), NodeMetadataView::CommunityNode(_)) => Err(
                PublicTxError::NodeJoin(NodeJoinError::WIPNotValidator),
            ),
            (Ok(info), NodeMetadataView::CouncilNode(meta)) => {
                let isv_svn = if info.isv_svn > recent_isv_svn {
                    info.isv_svn
                } else {
                    recent_isv_svn
                };
                let address = meta.validator_address();
                match state.validator() {
                    Some(validator) => {
                        let used = validator.used_validator_addresses;
                        if validator.is_jailed() {
                            Err(PublicTxError::NodeJoin(NodeJoinError::IsJailed))
                        } else if validator.is_active() {
                            Err(PublicTxError::NodeJoin(NodeJoinError::AlreadyJoined))
                        } else if validator.validator_address() == address {
                            Ok(
                                NodeJoined {
                                    idx_validator_address,
                                    record: rejoined(state, validator, tx),
                                    isv_svn,
                                },
                            )
                        } else if idx_validator_address.contains_key(address)
                            && idx_validator_address[address] != tx.address {
                            Err(PublicTxError::NodeJoin(NodeJoinError::DuplicateValidatorAddress))
                        } else if live_entries(used, block_time, max_evidence_age).len()
                            >= MAX_USED_VALIDATOR_ADDR {
                            Err(PublicTxError::NodeJoin(NodeJoinError::UsedValidatorAddrFull))
                        } else {
                            Ok(
                                NodeJoined {
                                    idx_validator_address: idx_validator_address.remove_keys(
                                        expired_addresses(
                                            used,
                                            block_time,
                                            max_evidence_age,
                                        ).to_set(),
                                    ).insert(address, tx.address),
                                    record: rejoined(
                                        state,
                                        ValidatorView {
                                            used_validator_addresses: live_entries(
                                                used,
                                                block_time,
                                                max_evidence_age,
                                            ).push((validator.validator_address(), block_time)),
                                            ..validator
                                        },
                                        tx,
                                    ),
                                    isv_svn,
                                },
                            )
                        }
                    },
                    None => if idx_validator_address.contains_key(address) {
                        Err(PublicTxError::NodeJoin(NodeJoinError::DuplicateValidatorAddress))
                    } else {
                        Ok(
                            NodeJoined {
                                idx_validator_address: idx_validator_address.insert(
                                    address,
                                    state.address,
                                ),
                                record: StakedStateView {
                                    nonce: state.next_nonce(),
                                    node_meta: Some(
                                        NodeStateView::CouncilNode(ValidatorView::fresh(meta)),
                                    ),
                                    ..state
                                },
                                isv_svn,
                            },
                        )
                    },
                }
            },
        }
    }
}

/// Whether a request to join gets as far as the verdict on its membership
/// package: nonce and bonded amount are looked at before.
pub open spec fn verdict_asked(
    before: StakingTableView,
    state: StakedStateView,
    tx: NodeJoinRequestTxView,
) -> bool {
    tx.nonce == state.nonce && state.bonded >= before.minimal_required_staking
}

/// Whether `verdict` is what `verifier` answered when it was given the bytes
/// `keypackage` and the time `time`.
pub open spec fn given_by<F: Fn(&[u8], Timespec) -> Result<AttestationInfo, VerifyError>>(
    verifier: F,
    keypackage: Seq<u8>,
    time: Timespec,
    verdict: Result<AttestationInfo, VerifyError>,
) -> bool {
    exists|bytes: &[u8]| bytes@ == keypackage && #[trigger] call_ensures(
        verifier,
        (bytes, time),
        verdict,
    )
}

/// Whether two records hold the same amounts, free from the same time.
pub open spec fn same_balances(a: StakedStateView, b: StakedStateView) -> bool {
    a.bonded == b.bonded && a.unbonded == b.unbonded && a.unbonded_from == b.unbonded_from
}

/// The window of consensus addresses given up: empty where the account is no
/// validator.
pub open spec fn window(state: StakedStateView) -> Seq<UsedAddress> {
    match state.validator() {
        Some(validator) => validator.used_validator_addresses,
        None => Seq::empty(),
    }
}

/// Whether the window of consensus addresses given up is within its bound.
pub open spec fn window_bounded(state: StakedStateView) -> bool {
    window(state).len() <= MAX_USED_VALIDATOR_ADDR
}

/// Whether a request to join, applied to the table `before` and the records
/// `records_before`, leaves the table `after` and the records `records_after`
/// and is answered with `answer`: all as [`node_join_step`] says for the
/// record of the account, with the bonded amount required left as it is and
/// nothing changed where the request is rejected.
pub open spec fn node_join_applied(
    before: StakingTableView,
    records_before: Map<StakedStateAddress, StakedStateView>,
    block_time: Timespec,
    max_evidence_age: Timespec,
    recent_isv_svn: u16,
    tx: NodeJoinRequestTxView,
    verdict: Result<AttestationInfo, VerifyError>,
    after: StakingTableView,
    records_after: Map<StakedStateAddress, StakedStateView>,
    answer: Result<u16, PublicTxError>,
) -> bool {
    match node_join_step(
        before.idx_validator_address,
        before.minimal_required_staking,
        record_of(records_before, tx.address),
        block_time,
        max_evidence_age,
        recent_isv_svn,
        tx,
        verdict,
    ) {
        Ok(joined) => {
            &&& answer == Ok::<u16, PublicTxError>(joined.isv_svn)
            &&& after == (StakingTableView {
                idx_validator_address: joined.idx_validator_address,
                ..before
            })
            &&& records_after == records_before.insert(tx.address, joined.record)
        },
        Err(e) => {
            &&& answer == Err::<u16, PublicTxError>(e)
            &&& after == before
            &&& records_after == records_before
        },
    }
}

/// Whether a request to join, once its membership package has passed, gets
/// as far as taking expired addresses out of the index: it comes from an
/// inactive validator that is not jailed, with the nonce of the record and
/// enough bonded, for a consensus address other than the one in use that no
/// other account owns, and the window has room.
pub open spec fn join_evicts(
    before: StakingTableView,
    state: StakedStateView,
    block_time: Timespec,
    max_evidence_age: Timespec,
    tx: NodeJoinRequestTxView,
) -> bool {
    match (state.validator(), tx.node_meta) {
        (Some(validator), NodeMetadataView::CouncilNode(meta)) => {
            &&& tx.nonce == state.nonce
            &&& state.bonded >= before.minimal_required_staking
            &&& !validator.is_jailed()
            &&& !validator.is_active()
            &&& validator.validator_address() != meta.validator_address()
            &&& !(before.idx_validator_address.contains_key(meta.validator_address())
                && before.idx_validator_address[meta.validator_address()] != tx.address)
            &&& live_entries(validator.used_validator_addresses, block_time, max_evidence_age).len()
                < MAX_USED_VALIDATOR_ADDR
        },
        _ => false,
    }
}

/// Whether a request to join asks for a consensus address that the account
/// gave up and that is still in its window.
pub open spec fn takes_back(
    state: StakedStateView,
    block_time: Timespec,
    max_evidence_age: Timespec,
    tx: NodeJoinRequestTxView,
) -> bool {
    match (state.validator(), tx.node_meta) {
        (Some(validator), NodeMetadataView::CouncilNode(meta)) => {
            &&& validator.validator_address() != meta.validator_address()
            &&& uses(
                live_entries(validator.used_validator_addresses, block_time, max_evidence_age),
                meta.validator_address(),
            )
        },
        _ => false,
    }
}

/// Whether the index holds for the account of `state` every consensus address
/// that has left its evidence window, each once. A request to join takes
/// these addresses out of the index, and must find them there.
pub open spec fn can_evict(
    idx_validator_address: Map<TendermintValidatorAddress, StakedStateAddress>,
    state: StakedStateView,
    block_time: Timespec,
    max_evidence_age: Timespec,
) -> bool {
    match state.validator() {
        Some(validator) => {
            let gone = expired_addresses(
                validator.used_validator_addresses,
                block_time,
                max_evidence_age,
            );
            &&& gone.no_duplicates()
            &&& forall|i: int|
                0 <= i < gone.len() ==> idx_validator_address.contains_key(#[trigger] gone[i])
                    && idx_validator_address[gone[i]] == state.address
        },
        None => true,
    }
}

/// What a request to be released from jail does to a record.
///
/// The nonce must be that of the record, the account a validator with a jail
/// time, and the jail time passed. Then the jail time is cleared and the nonce
/// counts one more.
pub open spec fn unjail_step(state: StakedStateView, nonce: Nonce, block_time: Timespec) -> Result<
    StakedStateView,
    PublicTxError,
> {
    if nonce != state.nonce {
        Err(PublicTxError::IncorrectNonce)
    } else {
        match state.validator() {
            Some(validator) => match validator.jailed_until {
                Some(jailed_until) => if block_time >= jailed_until {
                    Ok(
                        StakedStateView {
                            nonce: state.next_nonce(),
                            node_meta: Some(
                                NodeStateView::CouncilNode(
                                    ValidatorView { jailed_until: None, ..validator },
                                ),
                            ),
                            ..state
                        },
                    )
                } else {
                    Err(PublicTxError::Unjail(UnjailError::JailTimeNotExpired))
                },
                None => Err(PublicTxError::Unjail(UnjailError::NotJailed)),
            },
            None => Err(PublicTxError::Unjail(UnjailError::NotJailed)),
        }
    }
}

/// What a deposit does to a record.
///
/// The account must not be jailed, and the bonded amount must stay within the
/// supply. Then the amount is added to it. The nonce stays.
pub open spec fn deposit_step(state: StakedStateView, amount: nat) -> Result<
    StakedStateView,
    DepositError,
> {
    if state.is_jailed() {
        Err(DepositError::IsJailed)
    } else if state.bonded + amount > MAX_COIN {
        Err(DepositError::CoinError(CoinError::OutOfBound))
    } else {
        Ok(StakedStateView { bonded: state.bonded + amount, ..state })
    }
}

/// What a request to unbond does to a record.
///
/// The nonce must be that of the record, the account not jailed, the value
/// not zero, the unbonded amount with the value within the supply, and the
/// bonded amount enough for value and fee. Then the value moves from the
/// bonded to the unbonded amount, the fee leaves the bonded amount, the
/// unbonded amount is locked until the block time plus the unbonding period,
/// clamped to the end of time, and the nonce counts one more.
pub open spec fn unbond_step(
    state: StakedStateView,
    nonce: Nonce,
    value: nat,
    fee: nat,
    unbonding_period: Timespec,
    block_time: Timespec,
) -> Result<StakedStateView, PublicTxError> {
    if nonce != state.nonce {
        Err(PublicTxError::IncorrectNonce)
    } else if state.is_jailed() {
        Err(PublicTxError::Unbond(UnbondError::IsJailed))
    } else if value == 0 {
        Err(PublicTxError::Unbond(UnbondError::ZeroValue))
    } else if state.unbonded + value > MAX_COIN || value + fee > MAX_COIN {
        Err(PublicTxError::Unbond(UnbondError::CoinError(CoinError::OutOfBound)))
    } else if state.bonded < value + fee {
        Err(PublicTxError::Unbond(UnbondError::CoinError(CoinError::Negative)))
    } else {
        Ok(
            StakedStateView {
                nonce: state.next_nonce(),
                bonded: (state.bonded - (value + fee)) as nat,
                unbonded: state.unbonded + value,
                unbonded_from: block_time.saturating_add(unbonding_period),
                ..state
            },
        )
    }
}

/// What a withdrawal does to a record.
///
/// The account must not be jailed, the unbonded amount free at the block
/// time, and the amount asked for the whole unbonded amount. Then the
/// unbonded amount is empty and the nonce counts one more.
pub open spec fn withdraw_step(state: StakedStateView, block_time: Timespec, amount: nat) -> Result<
    StakedStateView,
    WithdrawError,
> {
    if state.is_jailed() {
        Err(WithdrawError::IsJailed)
    } else if block_time < state.unbonded_from {
        Err(WithdrawError::InUnbondingPeriod)
    } else if state.unbonded != amount {
        Err(WithdrawError::UnbondedSanityCheck(coin_of(state.unbonded), coin_of(amount)))
    } else {
        Ok(StakedStateView { nonce: state.next_nonce(), unbonded: 0, ..state })
    }
}

impl StakingTable {
    /// Makes the account `tx.address` a validator, or brings it back as one.
    ///
    /// Unless nonce or bonded amount reject the request before, the
    /// membership package of the request is put to `verifier` as of
    /// `block_time`. With the verdict the request is applied to the index and
    /// to the record of the account as [`node_join_step`] says: accepted,
    /// index and record are written and the enclave version to go on with is
    /// returned; rejected, nothing changes.
    ///
    /// Where the request would take expired addresses out of the index, the
    /// index must be well-formed and hold them for the account; and `verifier`
    /// must take every package at `block_time`.
    pub fn node_join<S: StoreStaking, F: Fn(&[u8], Timespec) -> Result<AttestationInfo, VerifyError>>(
        &mut self,
        heap: &mut S,
        verifier: &F,
        block_time: Timespec,
        max_evidence_age: Timespec,
        recent_isv_svn: u16,
        tx: &NodeJoinRequestTx,
    ) -> (r: Result<u16, PublicTxError>)
        requires
            old(self).fit_to_join(old(heap).records(), block_time, max_evidence_age, tx@),
            forall|keypackage: &[u8]| call_requires(*verifier, (keypackage, block_time)),
        ensures
            old(self).wf() ==> final(self).wf(),
            exists|verdict: Result<AttestationInfo, VerifyError>|
                {
                    &&& verdict_asked(
                        old(self)@,
                        record_of(old(heap).records(), tx.address),
                        tx@,
                    ) ==> given_by(*verifier, tx@.node_meta.keypackage(), block_time, verdict)
                    &&& #[trigger] node_join_applied(
                        old(self)@,
                        old(heap).records(),
                        block_time,
                        max_evidence_age,
                        recent_isv_svn,
                        tx@,
                        verdict,
                        final(self)@,
                        final(heap).records(),
                        r,
                    )
                },
            old(self).consistent(old(heap).records()) ==> final(self).consistent(
                final(heap).records(),
            ),
            old(self).complete(old(heap).records()) && !takes_back(
                record_of(old(heap).records(), tx.address),
                block_time,
                max_evidence_age,
                tx@,
            ) ==> final(self).complete(final(heap).records()),
            r is Ok ==> tx.nonce == record_of(old(heap).records(), tx.address).nonce,
            r is Ok ==> record_of(final(heap).records(), tx.address).nonce == record_of(
                old(heap).records(),
                tx.address,
            ).next_nonce(),
            r is Ok ==> same_balances(
                record_of(old(heap).records(), tx.address),
                record_of(final(heap).records(), tx.address),
            ),
            r is Err ==> final(heap).records() == old(heap).records(),
            r is Err ==> final(self)@ == old(self)@,
            window_bounded(record_of(old(heap).records(), tx.address)) || window(
                record_of(final(heap).records(), tx.address),
            ) != window(record_of(old(heap).records(), tx.address)) ==> window_bounded(
                record_of(final(heap).records(), tx.address),
            ),
    {
        let staking = self.get_or_default(heap, &tx.address);
        if tx.nonce != staking.nonce {
            assert(node_join_applied(
                old(self)@,
                old(heap).records(),
                block_time,
                max_evidence_age,
                recent_isv_svn,
                tx@,
                Err(VerifyError::Decode),
                self@,
                heap.records(),
                Err(PublicTxError::IncorrectNonce),
            ));
            return Err(PublicTxError::IncorrectNonce);
        }
        if staking.bonded.less_than(&self.minimal_required_staking()) {
            assert(node_join_applied(
                old(self)@,
                old(heap).records(),
                block_time,
                max_evidence_age,
                recent_isv_svn,
                tx@,
                Err(VerifyError::Decode),
                self@,
                heap.records(),
                Err(PublicTxError::NodeJoin(NodeJoinError::BondedNotEnough)),
            ));
            return Err(PublicTxError::NodeJoin(NodeJoinError::BondedNotEnough));
        }
        let keypackage = tx.get_keypackage_payload();
        let verdict = verifier(keypackage, block_time);
        assert(given_by(*verifier, tx@.node_meta.keypackage(), block_time, verdict));
        self.join_with_verdict(
            heap,
            staking,
            block_time,
            max_evidence_age,
            recent_isv_svn,
            tx,
            verdict,
        )
    }

    /// Makes the account `tx.address` a validator, or brings it back as one,
    /// given the verdict on the membership package of the request.
    ///
    /// The request is applied to the index and to the record of the account
    /// as [`node_join_step`] says: accepted, index and record are written and
    /// the enclave version to go on with is returned; rejected, nothing
    /// changes.
    ///
    /// Where the request would take expired addresses out of the index, the
    /// index must be well-formed and hold them for the account.
    pub fn node_join_attested<S: StoreStaking>(
        &mut self,
        heap: &mut S,
        block_time: Timespec,
        max_evidence_age: Timespec,
        recent_isv_svn: u16,
        tx: &NodeJoinRequestTx,
        verdict: Result<AttestationInfo, VerifyError>,
    ) -> (r: Result<u16, PublicTxError>)
        requires
            verdict is Ok ==> old(self).fit_to_join(
                old(heap).records(),
                block_time,
                max_evidence_age,
                tx@,
            ),
        ensures
            old(self).wf() ==> final(self).wf(),
            node_join_applied(
                old(self)@,
                old(heap).records(),
                block_time,
                max_evidence_age,
                recent_isv_svn,
                tx@,
                verdict,
                final(self)@,
                final(heap).records(),
                r,
            ),
            old(self).consistent(old(heap).records()) ==> final(self).consistent(
                final(heap).records(),
            ),
            old(self).complete(old(heap).records()) && !takes_back(
                record_of(old(heap).records(), tx.address),
                block_time,
                max_evidence_age,
                tx@,
            ) ==> final(self).complete(final(heap).records()),
            r is Ok ==> tx.nonce == record_of(old(heap).records(), tx.address).nonce,
            r is Ok ==> record_of(final(heap).records(), tx.address).nonce == record_of(
                old(heap).records(),
                tx.address,
            ).next_nonce(),
            r is Ok ==> same_balances(
                record_of(old(heap).records(), tx.address),
                record_of(final(heap).records(), tx.address),
            ),
            r is Err ==> final(heap).records() == old(heap).records(),
            r is Err ==> final(self)@ == old(self)@,
            window_bounded(record_of(old(heap).records(), tx.address)) || window(
                record_of(final(heap).records(), tx.address),
            ) != window(record_of(old(heap).records(), tx.address)) ==> window_bounded(
                record_of(final(heap).records(), tx.address),
            ),
    {
        let staking = self.get_or_default(heap, &tx.address);
        if tx.nonce != staking.nonce {
            return Err(PublicTxError::IncorrectNonce);
        }
        if staking.bonded.less_than(&self.minimal_required_staking()) {
            return Err(PublicTxError::NodeJoin(NodeJoinError::BondedNotEnough));
        }
        self.join_with_verdict(
            heap,
            staking,
            block_time,
            max_evidence_age,
            recent_isv_svn,
            tx,
            verdict,
        )
    }

    /// What is left of a request to join once nonce and bonded amount have
    /// passed and the verdict on the membership package is in: `staking` is
    /// the record of the account as the store has it.
    fn join_with_verdict<S: StoreStaking>(
        &mut self,
        heap: &mut S,
        staking: StakedState,
        block_time: Timespec,
        max_evidence_age: Timespec,
        recent_isv_svn: u16,
        tx: &NodeJoinRequestTx,
        verdict: Result<AttestationInfo, VerifyError>,
    ) -> (r: Result<u16, PublicTxError>)
        requires
            verdict is Ok ==> old(self).fit_to_join(
                old(heap).records(),
                block_time,
                max_evidence_age,
                tx@,
            ),
            staking@ == record_of(old(heap).records(), tx.address),
            staking.address == tx.address,
            verdict_asked(old(self)@, staking@, tx@),
        ensures
            old(self).wf() ==> final(self).wf(),
            node_join_applied(
                old(self)@,
                old(heap).records(),
                block_time,
                max_evidence_age,
                recent_isv_svn,
                tx@,
                verdict,
                final(self)@,
                final(heap).records(),
                r,
            ),
            old(self).consistent(old(heap).records()) ==> final(self).consistent(
                final(heap).records(),
            ),
            old(self).complete(old(heap).records()) && !takes_back(
                record_of(old(heap).records(), tx.address),
                block_time,
                max_evidence_age,
                tx@,
            ) ==> final(self).complete(final(heap).records()),
            r is Ok ==> tx.nonce == record_of(old(heap).records(), tx.address).nonce,
            r is Ok ==> record_of(final(heap).records(), tx.address).nonce == record_of(
                old(heap).records(),
                tx.address,
            ).next_nonce(),
            r is Ok ==> same_balances(
                record_of(old(heap).records(), tx.address),
                record_of(final(heap).records(), tx.address),
            ),
            r is Err ==> final(heap).records() == old(heap).records(),
            r is Err ==> final(self)@ == old(self)@,
            window_bounded(record_of(old(heap).records(), tx.address)) || window(
                record_of(final(heap).records(), tx.address),
            ) != window(record_of(old(heap).records(), tx.address)) ==> window_bounded(
                record_of(final(heap).records(), tx.address),
            ),
    {
        proof {
            if self.consistent(heap.records()) {
                lemma_node_join_keeps_consistent(
                    self@.idx_validator_address,
                    self@.minimal_required_staking,
                    heap.records(),
                    block_time,
                    max_evidence_age,
                    recent_isv_svn,
                    tx@,
                    verdict,
                );
            }
        }
        let mut staking = staking;
        let isv_svn = match verdict {
            Ok(info) => info.isv_svn,
            Err(VerifyError::Decode) => {
                return Err(PublicTxError::NodeJoin(NodeJoinError::KeyPackageDecodeError));
            },
            Err(VerifyError::Verify) => {
                return Err(PublicTxError::NodeJoin(NodeJoinError::KeyPackageVerifyError));
            },
        };
        let new_isv_svn = if isv_svn > recent_isv_svn {
            isv_svn
        } else {
            recent_isv_svn
        };
        let council_node = match &tx.node_meta {
            NodeMetadata::CouncilNode(cm) => cm,
            NodeMetadata::CommunityNode(_) => {
                return Err(PublicTxError::NodeJoin(NodeJoinError::WIPNotValidator));
            },
        };
        let val_addr = TendermintValidatorAddress::from_pubkey(&council_node.consensus_pubkey);
        match &mut staking.node_meta {
            Some(NodeState::CouncilNode(val)) => {
                if val.is_jailed() {
                    return Err(PublicTxError::NodeJoin(NodeJoinError::IsJailed));
                }
                if val.is_active() {
                    return Err(PublicTxError::NodeJoin(NodeJoinError::AlreadyJoined));
                }
                let old_val_addr = val.validator_address();
                if old_val_addr != val_addr {
                    // Only an address of another account is a duplicate.
                    if let Some(owner) = self.lookup_address(&val_addr) {
                        if owner != tx.address {
                            return Err(
                                PublicTxError::NodeJoin(NodeJoinError::DuplicateValidatorAddress),
                            );
                        }
                    }
                    let out_of_date = match add_old_val_addr(
                        &mut val.used_validator_addresses,
                        block_time,
                        &old_val_addr,
                        MAX_USED_VALIDATOR_ADDR,
                        max_evidence_age,
                    ) {
                        Some(out_of_date) => out_of_date,
                        None => {
                            return Err(
                                PublicTxError::NodeJoin(NodeJoinError::UsedValidatorAddrFull),
                            );
                        },
                    };
                    self.evict(&out_of_date, &tx.address);
                    self.insert_validator_address(val_addr, tx.address);
                }
                val.council_node = council_node.clone();
                val.inactive_time = None;
                val.inactive_block = None;
            },
            _ => {
                if self.lookup_address(&val_addr).is_some() {
                    return Err(PublicTxError::NodeJoin(NodeJoinError::DuplicateValidatorAddress));
                }
                staking.node_meta = Some(
                    NodeState::CouncilNode(Validator::new(council_node.clone())),
                );
                self.insert_validator_address(val_addr, staking.address);
            },
        }
        staking.inc_nonce();
        set_staking(heap, staking, self.minimal_required_staking());
        Ok(new_isv_svn)
    }

    /// Takes out of the index the consensus addresses `out_of_date`, which it
    /// holds for `owner`, each once.
    fn evict(&mut self, out_of_date: &Vec<TendermintValidatorAddress>, owner: &StakedStateAddress)
        requires
            old(self).wf(),
            out_of_date@.no_duplicates(),
            forall|i: int|
                0 <= i < out_of_date@.len() ==> old(self)@.idx_validator_address.contains_key(
                    #[trigger] out_of_date@[i],
                ) && old(self)@.idx_validator_address[out_of_date@[i]] == *owner,
        ensures
            final(self).wf(),
            final(self)@ == (StakingTableView {
                idx_validator_address: old(self)@.idx_validator_address.remove_keys(
                    out_of_date@.to_set(),
                ),
                ..old(self)@
            }),
    {
        let mut i: usize = 0;
        assert(self@.idx_validator_address =~= old(self)@.idx_validator_address.remove_keys(
            out_of_date@.take(0).to_set(),
        ));
        while i < out_of_date.len()
            invariant
                i <= out_of_date.len(),
                self.wf(),
                out_of_date@.no_duplicates(),
                forall|j: int|
                    0 <= j < out_of_date@.len() ==> old(self)@.idx_validator_address.contains_key(
                        #[trigger] out_of_date@[j],
                    ) && old(self)@.idx_validator_address[out_of_date@[j]] == *owner,
                self@ == (StakingTableView {
                    idx_validator_address: old(self)@.idx_validator_address.remove_keys(
                        out_of_date@.take(i as int).to_set(),
                    ),
                    ..old(self)@
                }),
            decreases out_of_date.len() - i,
        {
            let ghost done = out_of_date@.take(i as int);
            let ghost next = out_of_date@.take(i + 1);
            let ghost address = out_of_date@[i as int];
            assert(!done.contains(address)) by {
                if done.contains(address) {
                    let j = choose|j: int| 0 <= j < done.len() && done[j] == address;
                    assert(out_of_date@[j] == out_of_date@[i as int]);
                }
            }
            let removed = self.remove_validator_address(&out_of_date[i]);
            assert(removed == Some(*owner));
            assert(next.to_set() =~= done.to_set().insert(address)) by {
                assert forall|a: TendermintValidatorAddress| next.contains(a) implies done.contains(
                    a,
                ) || a == address by {
                    let j = choose|j: int| 0 <= j < next.len() && next[j] == a;
                    if j < i {
                        assert(done[j] == a);
                    }
                }
                assert forall|a: TendermintValidatorAddress| done.contains(a) implies next.contains(
                    a,
                ) by {
                    let j = choose|j: int| 0 <= j < done.len() && done[j] == a;
                    assert(next[j] == a);
                }
                assert(next[i as int] == address);
            }
            assert(self@.idx_validator_address =~= old(self)@.idx_validator_address.remove_keys(
                next.to_set(),
            ));
            i += 1;
        }
        assert(out_of_date@.take(i as int) =~= out_of_date@);
    }

    /// Releases the validator of `tx.address` from jail.
    ///
    /// The request is applied to the record of the account as [`unjail_step`]
    /// says: accepted, the changed record is written; rejected, nothing
    /// changes. The table stays as it is.
    pub fn unjail<S: StoreStaking>(&mut self, heap: &mut S, block_time: Timespec, tx: &UnjailTx) -> (r:
        Result<(), PublicTxError>)
        ensures
            *final(self) == *old(self),
            r == answer(
                unjail_step(record_of(old(heap).records(), tx.address), tx.nonce, block_time),
            ),
            old(self).consistent(old(heap).records()) ==> final(self).consistent(
                final(heap).records(),
            ),
            old(self).complete(old(heap).records()) ==> final(self).complete(
                final(heap).records(),
            ),
            r is Ok ==> record_of(final(heap).records(), tx.address).nonce == record_of(
                old(heap).records(),
                tx.address,
            ).next_nonce(),
            r is Err ==> final(heap).records() == old(heap).records(),
            final(heap).records() == written(
                old(heap).records(),
                tx.address,
                unjail_step(record_of(old(heap).records(), tx.address), tx.nonce, block_time),
            ),
    {
        proof {
            if self.consistent(heap.records()) {
                lemma_unjail_keeps_consistent(
                    self@.idx_validator_address,
                    heap.records(),
                    tx.address,
                    tx.nonce,
                    block_time,
                );
            }
        }
        let mut staking = self.get_or_default(heap, &tx.address);
        if tx.nonce != staking.nonce {
            return Err(PublicTxError::IncorrectNonce);
        }
        match &mut staking.node_meta {
            Some(NodeState::CouncilNode(val)) => {
                if let Some(jailed_until) = val.jailed_until {
                    if block_time >= jailed_until {
                        val.unjail();
                        staking.inc_nonce();
                        set_staking(heap, staking, self.minimal_required_staking());
                        Ok(())
                    } else {
                        Err(PublicTxError::Unjail(UnjailError::JailTimeNotExpired))
                    }
                } else {
                    Err(PublicTxError::Unjail(UnjailError::NotJailed))
                }
            },
            _ => Err(PublicTxError::Unjail(UnjailError::NotJailed)),
        }
    }

    /// Adds `amount` to the bonded amount of `addr`.
    ///
    /// The deposit is applied to the record of the account as
    /// [`deposit_step`] says: accepted, the changed record is written;
    /// rejected, nothing changes. The table stays as it is.
    pub fn deposit<S: StoreStaking>(&mut self, heap: &mut S, addr: &StakedStateAddress, amount: Coin) -> (r:
        Result<(), DepositError>)
        ensures
            *final(self) == *old(self),
            r == answer(deposit_step(record_of(old(heap).records(), *addr), amount@)),
            final(heap).records() == written(
                old(heap).records(),
                *addr,
                deposit_step(record_of(old(heap).records(), *addr), amount@),
            ),
            old(self).consistent(old(heap).records()) ==> final(self).consistent(
                final(heap).records(),
            ),
            old(self).complete(old(heap).records()) ==> final(self).complete(
                final(heap).records(),
            ),
            record_of(final(heap).records(), *addr).nonce == record_of(
                old(heap).records(),
                *addr,
            ).nonce,
            r is Err ==> final(heap).records() == old(heap).records(),
    {
        proof {
            if self.consistent(heap.records()) {
                lemma_deposit_keeps_consistent(
                    self@.idx_validator_address,
                    heap.records(),
                    *addr,
                    amount@,
                );
            }
        }
        let mut staking = self.get_or_default(heap, addr);
        if staking.is_jailed() {
            return Err(DepositError::IsJailed);
        }
        match self.add_bonded(amount, &mut staking) {
            Ok(_) => {},
            Err(e) => {
                return Err(DepositError::CoinError(e));
            },
        }
        set_staking(heap, staking, self.minimal_required_staking());
        Ok(())
    }

    /// Moves `tx.value` from the bonded to the unbonded amount of
    /// `tx.from_staked_account`, and takes `fee` from the bonded amount.
    ///
    /// The request is applied to the record of the account as [`unbond_step`]
    /// says: accepted, the changed record is written and the time from which
    /// the unbonded amount is free is returned; rejected, nothing changes.
    /// The table stays as it is. `block_height` belongs to the block context
    /// that callers hand to every operation; nothing of the record depends on
    /// it.
    pub fn unbond<S: StoreStaking>(
        &mut self,
        heap: &mut S,
        unbonding_period: Timespec,
        block_time: Timespec,
        block_height: BlockHeight,
        tx: &UnbondTx,
        fee: Fee,
    ) -> (r: Result<Timespec, PublicTxError>)
        ensures
            *final(self) == *old(self),
            r == match unbond_step(
                record_of(old(heap).records(), tx.from_staked_account),
                tx.nonce,
                tx.value@,
                fee@,
                unbonding_period,
                block_time,
            ) {
                Ok(next) => Ok::<Timespec, PublicTxError>(next.unbonded_from),
                Err(e) => Err(e),
            },
            final(heap).records() == written(
                old(heap).records(),
                tx.from_staked_account,
                unbond_step(
                    record_of(old(heap).records(), tx.from_staked_account),
                    tx.nonce,
                    tx.value@,
                    fee@,
                    unbonding_period,
                    block_time,
                ),
            ),
            old(self).consistent(old(heap).records()) ==> final(self).consistent(
                final(heap).records(),
            ),
            old(self).complete(old(heap).records()) ==> final(self).complete(
                final(heap).records(),
            ),
            r is Ok ==> record_of(final(heap).records(), tx.from_staked_account).nonce == record_of(
                old(heap).records(),
                tx.from_staked_account,
            ).next_nonce(),
            r is Err ==> final(heap).records() == old(heap).records(),
    {
        proof {
            if self.consistent(heap.records()) {
                lemma_unbond_keeps_consistent(
                    self@.idx_validator_address,
                    heap.records(),
                    tx.from_staked_account,
                    tx.nonce,
                    tx.value@,
                    fee@,
                    unbonding_period,
                    block_time,
                );
            }
        }
        let mut staking = self.get_or_default(heap, &tx.from_staked_account);
        if tx.nonce != staking.nonce {
            return Err(PublicTxError::IncorrectNonce);
        }
        if staking.is_jailed() {
            return Err(PublicTxError::Unbond(UnbondError::IsJailed));
        }
        let fee_amount = fee.to_coin();
        if tx.value.is_zero() {
            return Err(PublicTxError::Unbond(UnbondError::ZeroValue));
        }
        let unbonded = match staking.unbonded.checked_add(tx.value) {
            Ok(unbonded) => unbonded,
            Err(e) => {
                return Err(PublicTxError::Unbond(UnbondError::CoinError(e)));
            },
        };
        let charged = match tx.value.checked_add(fee_amount) {
            Ok(charged) => charged,
            Err(e) => {
                return Err(PublicTxError::Unbond(UnbondError::CoinError(e)));
            },
        };
        match self.sub_bonded(charged, &mut staking) {
            Ok(_) => {},
            Err(e) => {
                return Err(PublicTxError::Unbond(UnbondError::CoinError(e)));
            },
        }
        staking.unbonded = unbonded;
        let unbonded_from = block_time.saturating_add(unbonding_period);
        staking.unbonded_from = unbonded_from;
        staking.inc_nonce();
        set_staking(heap, staking, self.minimal_required_staking());
        Ok(unbonded_from)
    }

    /// Takes the whole unbonded amount out of the record of `addr`.
    ///
    /// The withdrawal is applied to the record of the account as
    /// [`withdraw_step`] says: accepted, the changed record is written;
    /// rejected, nothing changes. The table stays as it is.
    pub fn withdraw<S: StoreStaking>(
        &mut self,
        heap: &mut S,
        block_time: Timespec,
        addr: &StakedStateAddress,
        amount: Coin,
    ) -> (r: Result<(), WithdrawError>)
        ensures
            *final(self) == *old(self),
            r == answer(withdraw_step(record_of(old(heap).records(), *addr), block_time, amount@)),
            final(heap).records() == written(
                old(heap).records(),
                *addr,
                withdraw_step(record_of(old(heap).records(), *addr), block_time, amount@),
            ),
            old(self).consistent(old(heap).records()) ==> final(self).consistent(
                final(heap).records(),
            ),
            old(self).complete(old(heap).records()) ==> final(self).complete(
                final(heap).records(),
            ),
            r is Ok ==> record_of(final(heap).records(), *addr).nonce == record_of(
                old(heap).records(),
                *addr,
            ).next_nonce(),
            r is Err ==> final(heap).records() == old(heap).records(),
    {
        proof {
            if self.consistent(heap.records()) {
                lemma_withdraw_keeps_consistent(
                    self@.idx_validator_address,
                    heap.records(),
                    *addr,
                    block_time,
                    amount@,
                );
            }
        }
        let mut staking = self.get_or_default(heap, addr);
        if staking.is_jailed() {
            return Err(WithdrawError::IsJailed);
        }
        if block_time < staking.unbonded_from {
            return Err(WithdrawError::InUnbondingPeriod);
        }
        if staking.unbonded != amount {
            proof {
                lemma_coin_of(staking.unbonded, 0);
                lemma_coin_of(amount, 0);
            }
            return Err(WithdrawError::UnbondedSanityCheck(staking.unbonded, amount));
        }
        staking.unbonded = Coin::zero();
        staking.inc_nonce();
        set_staking(heap, staking, self.minimal_required_staking());
        Ok(())
    }
}

} // verus!
