//! Why a staking operation was rejected.

use crate::coin::{Coin, CoinError};
use vstd::prelude::*;

verus! {

/// Why a request to join as a validator was rejected.
#[derive(Debug, Clone, Copy, PartialEq, Eq, Structural)]
pub enum NodeJoinError {
    /// The bonded amount is below the minimum required of a validator.
    BondedNotEnough,
    /// The membership package could not be decoded.
    KeyPackageDecodeError,
    /// The membership package did not pass attestation.
    KeyPackageVerifyError,
    /// The request is for a role other than validator, which is not accepted
    /// yet.
    WIPNotValidator,
    /// The account is jailed.
    IsJailed,
    /// The account is an active validator already.
    AlreadyJoined,
    /// The consensus address is in use.
    DuplicateValidatorAddress,
    /// Too many consensus addresses given up are still within the evidence
    /// window.
    UsedValidatorAddrFull,
}

/// Why a request to be released from jail was rejected.
#[derive(Debug, Clone, Copy, PartialEq, Eq, Structural)]
pub enum UnjailError {
    /// The account is not a jailed validator.
    NotJailed,
    /// The jail time has not passed yet.
    JailTimeNotExpired,
}

/// Why a deposit was rejected.
#[derive(Debug, Clone, Copy, PartialEq, Eq, Structural)]
pub enum DepositError {
    /// The account is jailed.
    IsJailed,
    /// The bonded amount would leave the range of the currency.
    CoinError(CoinError),
}

/// Why a request to unbond was rejected.
#[derive(Debug, Clone, Copy, PartialEq, Eq, Structural)]
pub enum UnbondError {
    /// The account is jailed.
    IsJailed,
    /// Nothing was asked to be unbonded.
    ZeroValue,
    /// A balance would leave the range of the currency: the unbonded amount
    /// too large, or the bonded amount too small for value and fee.
    CoinError(CoinError),
}

/// Why a withdrawal was rejected.
#[derive(Debug, Clone, Copy, PartialEq, Eq, Structural)]
pub enum WithdrawError {
    /// The account is jailed.
    IsJailed,
    /// The unbonded amount is not free to be withdrawn yet.
    InUnbondingPeriod,
    /// The amount asked for is not the unbonded amount: what the record holds,
    /// then what was asked for.
    UnbondedSanityCheck(Coin, Coin),
}

/// Why an operation that an account signs with its nonce was rejected.
#[derive(Debug, Clone, Copy, PartialEq, Eq, Structural)]
pub enum PublicTxError {
    /// The nonce of the request is not the nonce of the record.
    IncorrectNonce,
    /// A request to join was rejected.
    NodeJoin(NodeJoinError),
    /// A request to be released from jail was rejected.
    Unjail(UnjailError),
    /// A request to unbond was rejected.
    Unbond(UnbondError),
}

} // verus!
