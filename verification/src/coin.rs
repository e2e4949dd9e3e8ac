//! Fixed-supply currency amounts with checked arithmetic.

use vstd::prelude::*;

verus! {

/// The total supply in base units: no amount is ever larger.
pub const MAX_COIN: u64 = 10_000_000_000_000_000_000;

/// Why an amount could not be formed.
#[derive(Debug, Clone, Copy, PartialEq, Eq, Structural)]
pub enum CoinError {
    /// The amount would exceed the total supply.
    OutOfBound,
    /// The amount would be below zero.
    Negative,
}

/// An amount of currency in base units, never above [`MAX_COIN`].
#[derive(Debug, Clone, Copy, PartialEq, Eq, Structural)]
pub struct Coin {
    value: u64,
}

impl View for Coin {
    type V = nat;

    closed spec fn view(&self) -> nat {
        self.value as nat
    }
}

impl Coin {
    #[verifier::type_invariant]
    closed spec fn within_supply(self) -> bool {
        self.value <= MAX_COIN
    }

    /// The amount of `value` base units, if that is within the supply.
    pub fn new(value: u64) -> (r: Result<Coin, CoinError>)
        ensures
            r == if value <= MAX_COIN {
                Ok::<Coin, CoinError>(coin_of(value as nat))
            } else {
                Err(CoinError::OutOfBound)
            },
            r matches Ok(c) ==> c@ == value,
    {
        if value > MAX_COIN {
            Err(CoinError::OutOfBound)
        } else {
            Ok(Coin { value })
        }
    }

    /// The empty amount.
    pub fn zero() -> (r: Coin)
        ensures
            r == coin_of(0),
            r@ == 0,
    {
        Coin { value: 0 }
    }

    /// The number of base units.
    pub fn value(&self) -> (r: u64)
        ensures
            r == self@,
            r <= MAX_COIN,
    {
        proof {
            use_type_invariant(self);
        }
        self.value
    }

    /// Whether this is the empty amount.
    pub fn is_zero(&self) -> (r: bool)
        ensures
            r == (self@ == 0),
    {
        self.value == 0
    }

    /// The sum of two amounts, unless it exceeds the supply.
    pub fn checked_add(self, rhs: Coin) -> (r: Result<Coin, CoinError>)
        ensures
            r == if self@ + rhs@ <= MAX_COIN {
                Ok::<Coin, CoinError>(coin_of(self@ + rhs@))
            } else {
                Err(CoinError::OutOfBound)
            },
            r matches Ok(c) ==> c@ == self@ + rhs@,
    {
        proof {
            use_type_invariant(self);
            use_type_invariant(rhs);
        }
        if rhs.value > MAX_COIN - self.value {
            Err(CoinError::OutOfBound)
        } else {
            Ok(Coin { value: self.value + rhs.value })
        }
    }

    /// The difference of two amounts, unless it would be below zero.
    pub fn checked_sub(self, rhs: Coin) -> (r: Result<Coin, CoinError>)
        ensures
            r == if rhs@ <= self@ {
                Ok::<Coin, CoinError>(coin_of((self@ - rhs@) as nat))
            } else {
                Err(CoinError::Negative)
            },
            r matches Ok(c) ==> c@ == self@ - rhs@,
    {
        proof {
            use_type_invariant(self);
        }
        if rhs.value > self.value {
            Err(CoinError::Negative)
        } else {
            Ok(Coin { value: self.value - rhs.value })
        }
    }

    /// Whether this amount is strictly smaller than `rhs`.
    pub fn less_than(&self, rhs: &Coin) -> (r: bool)
        ensures
            r == (self@ < rhs@),
    {
        self.value < rhs.value
    }
}

/// The amount with the given number of base units.
pub closed spec fn coin_of(units: nat) -> Coin {
    Coin { value: units as u64 }
}

/// `coin_of` undoes the view, and the view undoes `coin_of` on every number
/// of base units that fits the machine word.
pub proof fn lemma_coin_of(c: Coin, units: nat)
    ensures
        coin_of(c@) == c,
        units <= u64::MAX ==> coin_of(units)@ == units,
{
}

} // verus!
