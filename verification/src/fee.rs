//! The fee charged for an operation.

use crate::coin::Coin;
use vstd::prelude::*;

verus! {

/// The amount that an operation costs whoever asks for it.
#[derive(Debug, Clone, Copy, PartialEq, Eq, Structural)]
pub struct Fee(Coin);

impl View for Fee {
    type V = nat;

    closed spec fn view(&self) -> nat {
        self.0@
    }
}

impl Fee {
    /// The fee of the given amount.
    pub fn new(amount: Coin) -> (fee: Fee)
        ensures
            fee@ == amount@,
    {
        Fee(amount)
    }

    /// The amount of the fee.
    pub fn to_coin(&self) -> (amount: Coin)
        ensures
            amount@ == self@,
    {
        self.0
    }
}

} // verus!
