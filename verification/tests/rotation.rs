use chain_staking::address::{TendermintValidatorAddress, TendermintValidatorPubKey, Timespec};
use chain_staking::rotation::{add_old_val_addr, out_of_date_addresses, MAX_USED_VALIDATOR_ADDR};

fn address(n: u8) -> TendermintValidatorAddress {
    TendermintValidatorAddress([n; 20])
}

#[test]
fn validator_address_is_the_start_of_the_sha256_digest() {
    let key = TendermintValidatorPubKey::Ed25519([0u8; 32]);
    let expected: [u8; 20] = [
        102, 104, 122, 173, 248, 98, 189, 119, 108, 143, 193, 139, 142, 159, 142, 32, 8, 151, 20,
        133,
    ];
    assert_eq!(TendermintValidatorAddress::from_pubkey(&key), TendermintValidatorAddress(expected));
    let key = TendermintValidatorPubKey::Ed25519([1u8; 32]);
    let expected: [u8; 20] = [
        114, 205, 110, 132, 34, 196, 7, 251, 109, 9, 134, 144, 241, 19, 11, 125, 237, 126, 194,
        247,
    ];
    assert_eq!(TendermintValidatorAddress::from_pubkey(&key), TendermintValidatorAddress(expected));
}

#[test]
fn validator_address_depends_on_the_key_alone() {
    let a = TendermintValidatorAddress::from_pubkey(&TendermintValidatorPubKey::Ed25519([7u8; 32]));
    let b = TendermintValidatorAddress::from_pubkey(&TendermintValidatorPubKey::Ed25519([7u8; 32]));
    let c = TendermintValidatorAddress::from_pubkey(&TendermintValidatorPubKey::Ed25519([8u8; 32]));
    assert_eq!(a, b);
    assert_ne!(a, c);
}

#[test]
fn addresses_compare_by_their_bytes() {
    let mut bytes: [u8; 20] = [3u8; 20];
    assert_eq!(TendermintValidatorAddress(bytes), address(3));
    bytes[19] = 4;
    assert_ne!(TendermintValidatorAddress(bytes), address(3));
}

#[test]
fn add_old_val_addr_appends_to_an_empty_window() {
    let mut used: Vec<(TendermintValidatorAddress, Timespec)> = Vec::new();
    let out = add_old_val_addr(&mut used, 100, &address(1), MAX_USED_VALIDATOR_ADDR, 50);
    assert_eq!(out, Some(vec![]));
    assert_eq!(used, vec![(address(1), 100)]);
}

#[test]
fn add_old_val_addr_drops_what_has_expired() {
    // Entries retired at 10 and 50 expire at 60 and 100: at block time 100 both
    // are out of date, the one retired at 51 is not.
    let mut used: Vec<(TendermintValidatorAddress, Timespec)> =
        vec![(address(1), 10), (address(2), 51), (address(3), 50)];
    let out = add_old_val_addr(&mut used, 100, &address(4), MAX_USED_VALIDATOR_ADDR, 50);
    assert_eq!(out, Some(vec![address(1), address(3)]));
    assert_eq!(used, vec![(address(2), 51), (address(4), 100)]);
}

#[test]
fn add_old_val_addr_expiry_is_at_the_boundary() {
    let mut used: Vec<(TendermintValidatorAddress, Timespec)> = vec![(address(1), 50)];
    // 50 + 50 <= 100: expired.
    assert_eq!(out_of_date_addresses(&used, 100, 50), vec![address(1)]);
    // 50 + 50 > 99: live.
    assert_eq!(out_of_date_addresses(&used, 99, 50), vec![]);
    let out = add_old_val_addr(&mut used, 99, &address(2), MAX_USED_VALIDATOR_ADDR, 50);
    assert_eq!(out, Some(vec![]));
    assert_eq!(used, vec![(address(1), 50), (address(2), 99)]);
}

#[test]
fn add_old_val_addr_refuses_a_full_window() {
    let mut used: Vec<(TendermintValidatorAddress, Timespec)> = Vec::new();
    for n in 0..10u8 {
        used.push((address(n), 90));
    }
    let before = used.clone();
    let out = add_old_val_addr(&mut used, 100, &address(10), MAX_USED_VALIDATOR_ADDR, 50);
    assert_eq!(out, None);
    assert_eq!(used, before);
}

#[test]
fn add_old_val_addr_makes_room_by_expiry() {
    let mut used: Vec<(TendermintValidatorAddress, Timespec)> = Vec::new();
    used.push((address(0), 50));
    for n in 1..10u8 {
        used.push((address(n), 90));
    }
    let out = add_old_val_addr(&mut used, 100, &address(10), MAX_USED_VALIDATOR_ADDR, 50);
    assert_eq!(out, Some(vec![address(0)]));
    assert_eq!(used.len(), 10);
    assert_eq!(used[0], (address(1), 90));
    assert_eq!(used[9], (address(10), 100));
}

#[test]
fn add_old_val_addr_respects_a_smaller_bound() {
    let mut used: Vec<(TendermintValidatorAddress, Timespec)> =
        vec![(address(1), 90), (address(2), 90)];
    assert_eq!(add_old_val_addr(&mut used, 100, &address(3), 2, 50), None);
    assert_eq!(used.len(), 2);
    assert_eq!(add_old_val_addr(&mut used, 100, &address(3), 3, 50), Some(vec![]));
    assert_eq!(used.len(), 3);
}

#[test]
fn add_old_val_addr_clamps_the_expiry_time() {
    // The expiry time of the entry is clamped to the end of time, so the
    // entry expires only there.
    let mut used: Vec<(TendermintValidatorAddress, Timespec)> = vec![(address(1), u64::MAX - 5)];
    assert_eq!(out_of_date_addresses(&used, u64::MAX - 1, 100), vec![]);
    assert_eq!(out_of_date_addresses(&used, u64::MAX, 100), vec![address(1)]);
    let out = add_old_val_addr(&mut used, u64::MAX, &address(2), MAX_USED_VALIDATOR_ADDR, 100);
    assert_eq!(out, Some(vec![address(1)]));
    assert_eq!(used, vec![(address(2), u64::MAX)]);
}

#[test]
fn address_of_a_digest_is_its_first_twenty_bytes() {
    let mut digest: [u8; 32] = [0u8; 32];
    for i in 0..32usize {
        digest[i] = i as u8;
    }
    let address = TendermintValidatorAddress::from_digest(&digest);
    for i in 0..20usize {
        assert_eq!(address.0[i], i as u8);
    }
}
