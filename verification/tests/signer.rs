use chain_staking::transaction_command::{
    exact_bytes, ExtendedAddr, HexError, InputError, TransactionCommand,
};

fn hex_of(byte: &str, count: usize) -> String {
    byte.repeat(count)
}

#[test]
fn verify_transaction_id_reads_32_bytes() {
    let id = TransactionCommand::verify_transaction_id(hex_of("ab", 32));
    assert_eq!(id, Ok([0xabu8; 32]));
    let mixed = TransactionCommand::verify_transaction_id(hex_of("Ab", 16) + &hex_of("aB", 16));
    assert_eq!(mixed, Ok([0xabu8; 32]));
}

#[test]
fn verify_transaction_id_reads_the_digits_in_order() {
    let text = String::from("000102030405060708090a0b0c0d0e0f101112131415161718191A1B1C1D1E1F");
    let id = TransactionCommand::verify_transaction_id(text).unwrap();
    for i in 0..32usize {
        assert_eq!(id[i] as usize, i);
    }
}

#[test]
fn verify_transaction_id_rejects_other_lengths() {
    assert_eq!(
        TransactionCommand::verify_transaction_id(hex_of("ab", 31)),
        Err(InputError::InvalidTransactionId)
    );
    assert_eq!(
        TransactionCommand::verify_transaction_id(hex_of("ab", 33)),
        Err(InputError::InvalidTransactionId)
    );
    assert_eq!(
        TransactionCommand::verify_transaction_id(String::new()),
        Err(InputError::InvalidTransactionId)
    );
}

#[test]
fn verify_transaction_id_rejects_what_is_not_hex() {
    assert_eq!(
        TransactionCommand::verify_transaction_id(hex_of("zz", 32)),
        Err(InputError::InvalidHex(HexError::InvalidHexCharacter { c: 'z', index: 0 }))
    );
    assert_eq!(
        TransactionCommand::verify_transaction_id(String::from("abc")),
        Err(InputError::InvalidHex(HexError::OddLength))
    );
    // An odd number of bytes is found before a byte that is no digit.
    assert_eq!(
        TransactionCommand::verify_transaction_id(String::from("xyz")),
        Err(InputError::InvalidHex(HexError::OddLength))
    );
    // The first byte that is no digit is the one named, by its place.
    assert_eq!(
        TransactionCommand::verify_transaction_id(String::from("0a1G2h")),
        Err(InputError::InvalidHex(HexError::InvalidHexCharacter { c: 'G', index: 3 }))
    );
    assert_eq!(
        TransactionCommand::verify_transaction_id(String::from("0a/:@`")),
        Err(InputError::InvalidHex(HexError::InvalidHexCharacter { c: '/', index: 2 }))
    );
    // A character outside ASCII is read byte by byte: two bytes each here.
    assert_eq!(
        TransactionCommand::verify_transaction_id(String::from("\u{e9}\u{e9}")),
        Err(InputError::InvalidHex(HexError::InvalidHexCharacter { c: '\u{c3}', index: 0 }))
    );
    assert_eq!(
        TransactionCommand::verify_transaction_id(String::from("0\u{e9}")),
        Err(InputError::InvalidHex(HexError::OddLength))
    );
}

#[test]
fn verify_redeem_address_reads_20_bytes() {
    assert_eq!(
        TransactionCommand::verify_redeem_address(hex_of("0f", 20)),
        Ok(ExtendedAddr::BasicRedeem([0x0fu8; 20]))
    );
    assert_eq!(
        TransactionCommand::verify_redeem_address(hex_of("0f", 32)),
        Err(InputError::InvalidRedeemAddress)
    );
    assert_eq!(
        TransactionCommand::verify_redeem_address(hex_of("0g", 20)),
        Err(InputError::InvalidHex(HexError::InvalidHexCharacter { c: 'g', index: 1 }))
    );
}

#[test]
fn verify_tree_address_reads_32_bytes() {
    assert_eq!(
        TransactionCommand::verify_tree_address(hex_of("f0", 32)),
        Ok(ExtendedAddr::OrTree([0xf0u8; 32]))
    );
    assert_eq!(
        TransactionCommand::verify_tree_address(hex_of("f0", 20)),
        Err(InputError::InvalidTreeAddress)
    );
    assert_eq!(
        TransactionCommand::verify_tree_address(String::from("f")),
        Err(InputError::InvalidHex(HexError::OddLength))
    );
}

#[test]
fn verify_chain_id_takes_the_first_byte() {
    assert_eq!(TransactionCommand::verify_chain_id("AB"), Ok(0xabu8));
    assert_eq!(TransactionCommand::verify_chain_id("12ff"), Ok(0x12u8));
    assert_eq!(TransactionCommand::verify_chain_id(""), Err(InputError::InvalidChainId));
    assert_eq!(
        TransactionCommand::verify_chain_id("x1"),
        Err(InputError::InvalidHex(HexError::InvalidHexCharacter { c: 'x', index: 0 }))
    );
}

#[test]
fn bytes_of_the_right_length_become_an_array() {
    assert_eq!(exact_bytes::<4>(&vec![1u8, 2, 3, 4]), Some([1u8, 2, 3, 4]));
    assert_eq!(exact_bytes::<4>(&vec![1u8, 2, 3]), None);
    assert_eq!(exact_bytes::<0>(&vec![]), Some([]));
    assert_eq!(
        TransactionCommand::transaction_id_from_bytes(&vec![9u8; 32]),
        Ok([9u8; 32])
    );
    assert_eq!(
        TransactionCommand::redeem_address_from_bytes(&vec![9u8; 21]),
        Err(InputError::InvalidRedeemAddress)
    );
    assert_eq!(
        TransactionCommand::tree_address_from_bytes(&vec![9u8; 32]),
        Ok(ExtendedAddr::OrTree([9u8; 32]))
    );
}
