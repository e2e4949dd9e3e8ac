//! What follows from the operations, whatever their arguments.

use crate::account::{Nonce, StakedStateView};
use crate::address::{StakedStateAddress, TendermintValidatorAddress, Timespec};
use crate::coin::coin_of;
use crate::enclave::{AttestationInfo, VerifyError};
use crate::nodejoin::NodeJoinRequestTxView;
use crate::rotation::expired_addresses;
use crate::tx::{deposit_step, node_join_step, unbond_step, unjail_step, window, window_bounded,
    withdraw_step};
use crate::tx_error::WithdrawError;
use vstd::prelude::*;

verus! {

/// An operation on the balances of an account, with its arguments.
pub enum BalanceOp {
    /// A deposit of `amount`.
    Deposit { amount: nat },
    /// A request to unbond `value` at the cost of `fee`.
    Unbond { nonce: Nonce, value: nat, fee: nat, unbonding_period: Timespec, block_time: Timespec },
    /// A withdrawal of `amount`.
    Withdraw { block_time: Timespec, amount: nat },
}

impl BalanceOp {
    /// What the operation makes of a record, or why it is rejected.
    pub open spec fn step(self, state: StakedStateView) -> Result<StakedStateView, ()> {
        match self {
            BalanceOp::Deposit { amount } => match deposit_step(state, amount) {
                Ok(next) => Ok(next),
                Err(_) => Err(()),
            },
            BalanceOp::Unbond { nonce, value, fee, unbonding_period, block_time } => match unbond_step(
                state,
                nonce,
                value,
                fee,
                unbonding_period,
                block_time,
            ) {
                Ok(next) => Ok(next),
                Err(_) => Err(()),
            },
            BalanceOp::Withdraw { block_time, amount } => match withdraw_step(
                state,
                block_time,
                amount,
            ) {
                Ok(next) => Ok(next),
                Err(_) => Err(()),
            },
        }
    }

    /// The record after the operation: changed where it is accepted, as it
    /// was where it is rejected.
    pub open spec fn apply(self, state: StakedStateView) -> StakedStateView {
        match self.step(state) {
            Ok(next) => next,
            Err(_) => state,
        }
    }

    /// What the operation deposits into a record, where it is accepted.
    pub open spec fn deposited(self, state: StakedStateView) -> nat {
        match self {
            BalanceOp::Deposit { amount } => if self.step(state) is Ok {
                amount
            } else {
                0
            },
            _ => 0,
        }
    }

    /// What the operation takes from a record as a fee, where it is accepted.
    pub open spec fn fee_paid(self, state: StakedStateView) -> nat {
        match self {
            BalanceOp::Unbond { fee, .. } => if self.step(state) is Ok {
                fee
            } else {
                0
            },
            _ => 0,
        }
    }

    /// What the operation withdraws from a record, where it is accepted.
    pub open spec fn withdrawn(self, state: StakedStateView) -> nat {
        match self {
            BalanceOp::Withdraw { amount, .. } => if self.step(state) is Ok {
                amount
            } else {
                0
            },
            _ => 0,
        }
    }
}

/// The record after a sequence of operations, each applied to what the ones
/// before it left.
pub open spec fn apply_all(state: StakedStateView, ops: Seq<BalanceOp>) -> StakedStateView
    decreases ops.len(),
{
    if ops.len() == 0 {
        state
    } else {
        ops.last().apply(apply_all(state, ops.drop_last()))
    }
}

/// The sum of the amounts deposited by the accepted operations of a sequence.
pub open spec fn total_deposited(state: StakedStateView, ops: Seq<BalanceOp>) -> nat
    decreases ops.len(),
{
    if ops.len() == 0 {
        0
    } else {
        total_deposited(state, ops.drop_last()) + ops.last().deposited(
            apply_all(state, ops.drop_last()),
        )
    }
}

/// The sum of the fees paid by the accepted operations of a sequence.
pub open spec fn total_fees(state: StakedStateView, ops: Seq<BalanceOp>) -> nat
    decreases ops.len(),
{
    if ops.len() == 0 {
        0
    } else {
        total_fees(state, ops.drop_last()) + ops.last().fee_paid(apply_all(state, ops.drop_last()))
    }
}

/// The sum of the amounts withdrawn by the accepted operations of a sequence.
pub open spec fn total_withdrawn(state: StakedStateView, ops: Seq<BalanceOp>) -> nat
    decreases ops.len(),
{
    if ops.len() == 0 {
        0
    } else {
        total_withdrawn(state, ops.drop_last()) + ops.last().withdrawn(
            apply_all(state, ops.drop_last()),
        )
    }
}

/// Conservation, for one operation: what a record holds after it is what it
/// held before, plus what was deposited, less the fee and what was withdrawn.
pub proof fn lemma_step_conserves(state: StakedStateView, op: BalanceOp)
    ensures
        op.apply(state).bonded + op.apply(state).unbonded + op.fee_paid(state) + op.withdrawn(state)
            == state.bonded + state.unbonded + op.deposited(state),
{
}

/// Conservation: after any sequence of deposits, requests to unbond and
/// withdrawals on an account, bonded and unbonded amount together are what
/// they were before, plus all that was deposited, less all fees paid and all
/// that was withdrawn. Operations that were rejected count for nothing.
pub proof fn lemma_conservation(state: StakedStateView, ops: Seq<BalanceOp>)
    ensures
        apply_all(state, ops).bonded + apply_all(state, ops).unbonded + total_fees(state, ops)
            + total_withdrawn(state, ops) == state.bonded + state.unbonded + total_deposited(
            state,
            ops,
        ),
    decreases ops.len(),
{
    if ops.len() > 0 {
        lemma_conservation(state, ops.drop_last());
        lemma_step_conserves(apply_all(state, ops.drop_last()), ops.last());
    }
}

/// Conservation, for an account that starts with nothing: bonded and unbonded
/// amount together are all that was deposited, less all fees paid and all
/// that was withdrawn.
pub proof fn lemma_conservation_from_nothing(account: StakedStateAddress, ops: Seq<BalanceOp>)
    ensures
        apply_all(StakedStateView::fresh(account), ops).bonded + apply_all(
            StakedStateView::fresh(account),
            ops,
        ).unbonded == total_deposited(StakedStateView::fresh(account), ops) - total_fees(
            StakedStateView::fresh(account),
            ops,
        ) - total_withdrawn(StakedStateView::fresh(account), ops),
{
    lemma_conservation(StakedStateView::fresh(account), ops);
}

/// An accepted request to be released from jail carried the nonce of the
/// record and leaves the nonce one greater than it was, as long as the counter
/// has not reached the end of its range.
pub proof fn lemma_unjail_counts(state: StakedStateView, nonce: Nonce, block_time: Timespec)
    requires
        unjail_step(state, nonce, block_time) is Ok,
    ensures
        nonce == state.nonce,
        state.nonce < u64::MAX ==> unjail_step(state, nonce, block_time)->Ok_0.nonce == state.nonce
            + 1,
{
}

/// An accepted request to unbond carried the nonce of the record and leaves
/// the nonce one greater than it was, as long as the counter has not reached
/// the end of its range.
pub proof fn lemma_unbond_counts(
    state: StakedStateView,
    nonce: Nonce,
    value: nat,
    fee: nat,
    unbonding_period: Timespec,
    block_time: Timespec,
)
    requires
        unbond_step(state, nonce, value, fee, unbonding_period, block_time) is Ok,
    ensures
        nonce == state.nonce,
        state.nonce < u64::MAX ==> unbond_step(
            state,
            nonce,
            value,
            fee,
            unbonding_period,
            block_time,
        )->Ok_0.nonce == state.nonce + 1,
{
}

/// An accepted request to join carried the nonce of the record and leaves the
/// nonce one greater than it was, as long as the counter has not reached the
/// end of its range. Balances, unlock time and account stay as they were.
pub proof fn lemma_node_join_counts(
    idx_validator_address: Map<TendermintValidatorAddress, StakedStateAddress>,
    minimal_required_staking: nat,
    state: StakedStateView,
    block_time: Timespec,
    max_evidence_age: Timespec,
    recent_isv_svn: u16,
    tx: NodeJoinRequestTxView,
    verdict: Result<AttestationInfo, VerifyError>,
)
    requires
        node_join_step(
            idx_validator_address,
            minimal_required_staking,
            state,
            block_time,
            max_evidence_age,
            recent_isv_svn,
            tx,
            verdict,
        ) is Ok,
    ensures
        tx.nonce == state.nonce,
        ({
            let after = node_join_step(
                idx_validator_address,
                minimal_required_staking,
                state,
                block_time,
                max_evidence_age,
                recent_isv_svn,
                tx,
                verdict,
            )->Ok_0.record;
            &&& state.nonce < u64::MAX ==> after.nonce == state.nonce + 1
            &&& after.bonded == state.bonded
            &&& after.unbonded == state.unbonded
            &&& after.unbonded_from == state.unbonded_from
            &&& after.address == state.address
        }),
{
}

/// What an accepted request to join with another consensus address does to
/// each entry of the index: the new address is owned by the account, every
/// other address that has left the window is out of the index, and every
/// other entry is as it was.
pub proof fn lemma_rotation_index(
    idx_validator_address: Map<TendermintValidatorAddress, StakedStateAddress>,
    minimal_required_staking: nat,
    state: StakedStateView,
    block_time: Timespec,
    max_evidence_age: Timespec,
    recent_isv_svn: u16,
    tx: NodeJoinRequestTxView,
    verdict: Result<AttestationInfo, VerifyError>,
    key: TendermintValidatorAddress,
)
    requires
        node_join_step(
            idx_validator_address,
            minimal_required_staking,
            state,
            block_time,
            max_evidence_age,
            recent_isv_svn,
            tx,
            verdict,
        ) is Ok,
        state.validator() is Some,
        state.validator()->0.validator_address() != tx.node_meta->CouncilNode_0.validator_address(),
    ensures
        ({
            let after = node_join_step(
                idx_validator_address,
                minimal_required_staking,
                state,
                block_time,
                max_evidence_age,
                recent_isv_svn,
                tx,
                verdict,
            )->Ok_0.idx_validator_address;
            let address = tx.node_meta->CouncilNode_0.validator_address();
            let gone = expired_addresses(
                state.validator()->0.used_validator_addresses,
                block_time,
                max_evidence_age,
            );
            if key == address {
                after.contains_key(key) && after[key] == tx.address
            } else if gone.contains(key) {
                !after.contains_key(key)
            } else {
                after.contains_key(key) == idx_validator_address.contains_key(key) && (
                after.contains_key(key) ==> after[key] == idx_validator_address[key])
            }
        }),
{
}

/// An accepted withdrawal leaves the nonce one greater than it was, as long
/// as the counter has not reached the end of its range, and an accepted
/// deposit leaves it as it was.
pub proof fn lemma_balance_ops_count(state: StakedStateView, block_time: Timespec, amount: nat)
    ensures
        withdraw_step(state, block_time, amount) is Ok && state.nonce < u64::MAX ==> withdraw_step(
            state,
            block_time,
            amount,
        )->Ok_0.nonce == state.nonce + 1,
        deposit_step(state, amount) is Ok ==> deposit_step(state, amount)->Ok_0.nonce
            == state.nonce,
{
}

/// After a withdrawal of an amount that is not zero, a second withdrawal of
/// the same amount, at a time at which the unbonded amount is free, is
/// rejected because the amount is not the unbonded amount, which is zero now.
pub proof fn lemma_withdraw_twice(
    state: StakedStateView,
    block_time: Timespec,
    later: Timespec,
    amount: nat,
)
    requires
        amount > 0,
        withdraw_step(state, block_time, amount) is Ok,
        state.unbonded_from <= later,
    ensures
        withdraw_step(withdraw_step(state, block_time, amount)->Ok_0, later, amount) == Err::<
            StakedStateView,
            WithdrawError,
        >(WithdrawError::UnbondedSanityCheck(coin_of(0), coin_of(amount))),
{
}

/// After a request to join, accepted or not, the window of consensus
/// addresses given up is within its bound, unless it was not before and the
/// request has left it as it was.
pub proof fn lemma_window_stays_bounded(
    idx_validator_address: Map<TendermintValidatorAddress, StakedStateAddress>,
    minimal_required_staking: nat,
    state: StakedStateView,
    block_time: Timespec,
    max_evidence_age: Timespec,
    recent_isv_svn: u16,
    tx: NodeJoinRequestTxView,
    verdict: Result<AttestationInfo, VerifyError>,
)
    ensures
        ({
            let after = match node_join_step(
                idx_validator_address,
                minimal_required_staking,
                state,
                block_time,
                max_evidence_age,
                recent_isv_svn,
                tx,
                verdict,
            ) {
                Ok(joined) => joined.record,
                Err(_) => state,
            };
            window_bounded(state) || window(after) != window(state) ==> window_bounded(after)
        }),
{
}

} // verus!
