use chain_staking::coin::{Coin, CoinError, MAX_COIN};
use chain_staking::fee::Fee;

#[test]
fn coin_new_accepts_the_whole_supply() {
    let coin = Coin::new(MAX_COIN).unwrap();
    assert_eq!(coin.value(), 10_000_000_000_000_000_000u64);
}

#[test]
fn coin_new_rejects_more_than_the_supply() {
    assert_eq!(Coin::new(MAX_COIN + 1), Err(CoinError::OutOfBound));
    assert_eq!(Coin::new(u64::MAX), Err(CoinError::OutOfBound));
}

#[test]
fn coin_zero_is_zero() {
    assert_eq!(Coin::zero().value(), 0u64);
    assert!(Coin::zero().is_zero());
    assert!(!Coin::new(1).unwrap().is_zero());
    assert_eq!(Coin::zero(), Coin::new(0).unwrap());
}

#[test]
fn coin_checked_add_sums() {
    let a = Coin::new(40).unwrap();
    let b = Coin::new(2).unwrap();
    assert_eq!(a.checked_add(b), Ok(Coin::new(42).unwrap()));
}

#[test]
fn coin_checked_add_stops_at_the_supply() {
    let a = Coin::new(MAX_COIN - 1).unwrap();
    let one = Coin::new(1).unwrap();
    let two = Coin::new(2).unwrap();
    assert_eq!(a.checked_add(one), Ok(Coin::new(MAX_COIN).unwrap()));
    assert_eq!(a.checked_add(two), Err(CoinError::OutOfBound));
    let max = Coin::new(MAX_COIN).unwrap();
    assert_eq!(max.checked_add(max), Err(CoinError::OutOfBound));
}

#[test]
fn coin_checked_sub_subtracts() {
    let a = Coin::new(40).unwrap();
    let b = Coin::new(2).unwrap();
    assert_eq!(a.checked_sub(b), Ok(Coin::new(38).unwrap()));
    assert_eq!(a.checked_sub(a), Ok(Coin::zero()));
}

#[test]
fn coin_checked_sub_stops_at_zero() {
    let a = Coin::new(40).unwrap();
    let b = Coin::new(41).unwrap();
    assert_eq!(a.checked_sub(b), Err(CoinError::Negative));
}

#[test]
fn coin_less_than_orders_by_value() {
    let a = Coin::new(40).unwrap();
    let b = Coin::new(41).unwrap();
    assert!(a.less_than(&b));
    assert!(!b.less_than(&a));
    assert!(!a.less_than(&a));
}

#[test]
fn fee_keeps_its_amount() {
    let fee = Fee::new(Coin::new(5).unwrap());
    assert_eq!(fee.to_coin(), Coin::new(5).unwrap());
}
