//! What the signer makes of the answers it is given when a transaction is put
//! together by hand.

use vstd::prelude::*;
use vstd::utf8::encode_utf8;

verus! {

/// The number of bytes of a 256-bit hash.
pub const HASH_SIZE_256: usize = 32;

/// The number of bytes of a redeem address.
pub const REDEEM_ADDRESS_BYTES: usize = 20;

/// The identifier of a transaction.
pub type TxId = [u8; 32];

/// Why a text does not stand for bytes in hexadecimal digits.
#[derive(Debug, Clone, Copy, PartialEq, Eq, Structural)]
pub enum HexError {
    /// The byte at place `index` of the text is no hexadecimal digit: `c` is
    /// the character with the number of that byte.
    InvalidHexCharacter { c: char, index: usize },
    /// The text has an odd number of bytes.
    OddLength,
    /// The text does not fill the container it is read into. Reading into a
    /// vector never gives this.
    InvalidStringLength,
}

/// The value of a hexadecimal digit, in either case.
pub open spec fn hex_value(digit: u8) -> Option<u8> {
    if 0x30 <= digit <= 0x39 {
        Some((digit - 0x30) as u8)
    } else if 0x41 <= digit <= 0x46 {
        Some((digit - 0x41 + 10) as u8)
    } else if 0x61 <= digit <= 0x66 {
        Some((digit - 0x61 + 10) as u8)
    } else {
        None
    }
}

/// Whether every byte is a hexadecimal digit.
pub open spec fn all_hex(data: Seq<u8>) -> bool {
    forall|i: int| 0 <= i < data.len() ==> hex_value(#[trigger] data[i]) is Some
}

/// The place of the first byte that is no hexadecimal digit, where there is
/// one.
pub open spec fn first_invalid(data: Seq<u8>) -> int
    decreases data.len(),
{
    if data.len() == 0 || hex_value(data[0]) is None {
        0
    } else {
        1 + first_invalid(data.drop_first())
    }
}

/// The bytes that a text of hexadecimal digits stands for, one for each pair
/// of digits, the first digit of a pair the high half; or why the text stands
/// for none: an odd number of bytes first, else the first byte that is no
/// digit.
pub open spec fn hex_decoded(data: Seq<u8>) -> Result<Seq<u8>, HexError> {
    if data.len() % 2 != 0 {
        Err(HexError::OddLength)
    } else if !all_hex(data) {
        Err(
            HexError::InvalidHexCharacter {
                c: data[first_invalid(data)] as char,
                index: first_invalid(data) as usize,
            },
        )
    } else {
        Ok(
            Seq::new(
                data.len() / 2,
                |i: int| (hex_value(data[2 * i])->0 * 16 + hex_value(data[2 * i + 1])->0) as u8,
            ),
        )
    }
}

/// What the bytes of a text stand for in hexadecimal digits.
pub open spec fn hex_text(text: Seq<char>) -> Result<Seq<u8>, HexError> {
    hex_decoded(encode_utf8(text))
}

/// Calls `hex::decode` on `data`. Trusted: the call succeeds on an even
/// number of hexadecimal digits, upper or lower case, and returns one byte
/// for each pair, the first digit the high half; it fails with `OddLength` on
/// an odd number of bytes, and else with the first byte that is no digit, as
/// a character, and its place.
#[verifier::external_body]
fn hex_decode(data: &[u8]) -> (decoded: Result<Vec<u8>, HexError>)
    ensures
        match decoded {
            Ok(bytes) => hex_decoded(data@) == Ok::<Seq<u8>, HexError>(bytes@),
            Err(e) => hex_decoded(data@) == Err::<Seq<u8>, HexError>(e),
        },
{
    match hex::decode(data) {
        Ok(bytes) => Ok(bytes),
        Err(hex::FromHexError::InvalidHexCharacter { c, index }) => {
            Err(HexError::InvalidHexCharacter { c, index })
        },
        Err(hex::FromHexError::OddLength) => Err(HexError::OddLength),
        Err(hex::FromHexError::InvalidStringLength) => Err(HexError::InvalidStringLength),
    }
}

/// Why an answer was not accepted.
#[derive(Debug, Clone, Copy, PartialEq, Eq, Structural)]
pub enum InputError {
    /// The text is not made of pairs of hexadecimal digits.
    InvalidHex(HexError),
    /// The bytes are not as many as a transaction identifier has.
    InvalidTransactionId,
    /// The bytes are not as many as a redeem address has.
    InvalidRedeemAddress,
    /// The bytes are not as many as a tree address has.
    InvalidTreeAddress,
    /// The chain identifier holds no byte.
    InvalidChainId,
}

/// The address that an output pays to.
#[derive(Debug, Clone, Copy, PartialEq, Eq)]
pub enum ExtendedAddr {
    /// The address of a key that redeems.
    BasicRedeem([u8; 20]),
    /// The root of a tree of keys.
    OrTree([u8; 32]),
}

impl ExtendedAddr {
    /// The bytes of the address.
    pub open spec fn bytes(self) -> Seq<u8> {
        match self {
            ExtendedAddr::BasicRedeem(address) => address@,
            ExtendedAddr::OrTree(root) => root@,
        }
    }
}

/// The bytes as an array of `N`, if they are that many.
pub fn exact_bytes<const N: usize>(bytes: &Vec<u8>) -> (array: Option<[u8; N]>)
    ensures
        match array {
            Some(array) => bytes@.len() == N && array@ == bytes@,
            None => bytes@.len() != N,
        },
{
    if bytes.len() != N {
        return None;
    }
    let mut array: [u8; N] = [0u8; N];
    let mut i: usize = 0;
    while i < N
        invariant
            i <= N,
            bytes@.len() == N,
            forall|j: int| 0 <= j < i ==> array@[j] == bytes@[j],
        decreases N - i,
    {
        array[i] = bytes[i];
        i += 1;
    }
    assert(array@ =~= bytes@);
    Some(array)
}

/// The commands of the signer that deal with transactions.
#[derive(Debug, PartialEq, Eq)]
pub enum TransactionCommand {
    /// Puts a new transaction together.
    Generate {
        /// The last two hexadecimal digits of the identifier of the chain.
        chain_id: String,
        /// The name of the signer.
        name: String,
    },
}

impl TransactionCommand {
    /// The transaction identifier that `bytes` hold.
    pub fn transaction_id_from_bytes(bytes: &Vec<u8>) -> (r: Result<TxId, InputError>)
        ensures
            match r {
                Ok(id) => bytes@.len() == HASH_SIZE_256 && id@ == bytes@,
                Err(e) => bytes@.len() != HASH_SIZE_256 && e == InputError::InvalidTransactionId,
            },
    {
        match exact_bytes::<32>(bytes) {
            Some(id) => Ok(id),
            None => Err(InputError::InvalidTransactionId),
        }
    }

    /// The redeem address that `bytes` hold.
    pub fn redeem_address_from_bytes(bytes: &Vec<u8>) -> (r: Result<ExtendedAddr, InputError>)
        ensures
            match r {
                Ok(address) => {
                    &&& bytes@.len() == REDEEM_ADDRESS_BYTES
                    &&& address is BasicRedeem
                    &&& address.bytes() == bytes@
                },
                Err(e) => bytes@.len() != REDEEM_ADDRESS_BYTES && e
                    == InputError::InvalidRedeemAddress,
            },
    {
        match exact_bytes::<20>(bytes) {
            Some(address) => Ok(ExtendedAddr::BasicRedeem(address)),
            None => Err(InputError::InvalidRedeemAddress),
        }
    }

    /// The tree address that `bytes` hold.
    pub fn tree_address_from_bytes(bytes: &Vec<u8>) -> (r: Result<ExtendedAddr, InputError>)
        ensures
            match r {
                Ok(address) => {
                    &&& bytes@.len() == HASH_SIZE_256
                    &&& address is OrTree
                    &&& address.bytes() == bytes@
                },
                Err(e) => bytes@.len() != HASH_SIZE_256 && e == InputError::InvalidTreeAddress,
            },
    {
        match exact_bytes::<32>(bytes) {
            Some(address) => Ok(ExtendedAddr::OrTree(address)),
            None => Err(InputError::InvalidTreeAddress),
        }
    }

    /// Reads a transaction identifier written in hexadecimal digits.
    pub fn verify_transaction_id(transaction_id: String) -> (r: Result<TxId, InputError>)
        ensures
            match hex_text(transaction_id@) {
                Ok(bytes) => match r {
                    Ok(id) => bytes.len() == HASH_SIZE_256 && id@ == bytes,
                    Err(e) => bytes.len() != HASH_SIZE_256 && e == InputError::InvalidTransactionId,
                },
                Err(e) => r == Err::<TxId, InputError>(InputError::InvalidHex(e)),
            },
    {
        match hex_decode(transaction_id.as_str().as_bytes()) {
            Ok(bytes) => Self::transaction_id_from_bytes(&bytes),
            Err(e) => Err(InputError::InvalidHex(e)),
        }
    }

    /// Reads a redeem address written in hexadecimal digits.
    pub fn verify_redeem_address(address: String) -> (r: Result<ExtendedAddr, InputError>)
        ensures
            match hex_text(address@) {
                Ok(bytes) => match r {
                    Ok(address) => {
                        &&& bytes.len() == REDEEM_ADDRESS_BYTES
                        &&& address is BasicRedeem
                        &&& address.bytes() == bytes
                    },
                    Err(e) => bytes.len() != REDEEM_ADDRESS_BYTES && e
                        == InputError::InvalidRedeemAddress,
                },
                Err(e) => r == Err::<ExtendedAddr, InputError>(InputError::InvalidHex(e)),
            },
    {
        match hex_decode(address.as_str().as_bytes()) {
            Ok(bytes) => Self::redeem_address_from_bytes(&bytes),
            Err(e) => Err(InputError::InvalidHex(e)),
        }
    }

    /// Reads a tree address written in hexadecimal digits.
    pub fn verify_tree_address(address: String) -> (r: Result<ExtendedAddr, InputError>)
        ensures
            match hex_text(address@) {
                Ok(bytes) => match r {
                    Ok(address) => {
                        &&& bytes.len() == HASH_SIZE_256
                        &&& address is OrTree
                        &&& address.bytes() == bytes
                    },
                    Err(e) => bytes.len() != HASH_SIZE_256 && e == InputError::InvalidTreeAddress,
                },
                Err(e) => r == Err::<ExtendedAddr, InputError>(InputError::InvalidHex(e)),
            },
    {
        match hex_decode(address.as_str().as_bytes()) {
            Ok(bytes) => Self::tree_address_from_bytes(&bytes),
            Err(e) => Err(InputError::InvalidHex(e)),
        }
    }

    /// Reads the identifier of the chain: the first of the bytes written in
    /// hexadecimal digits.
    pub fn verify_chain_id(chain_id: &str) -> (r: Result<u8, InputError>)
        ensures
            r == match hex_text(chain_id@) {
                Ok(bytes) => if bytes.len() > 0 {
                    Ok::<u8, InputError>(bytes[0])
                } else {
                    Err(InputError::InvalidChainId)
                },
                Err(e) => Err(InputError::InvalidHex(e)),
            },
    {
        match hex_decode(chain_id.as_bytes()) {
            Ok(bytes) => if bytes.len() > 0 {
                Ok(bytes[0])
            } else {
                Err(InputError::InvalidChainId)
            },
            Err(e) => Err(InputError::InvalidHex(e)),
        }
    }
}

} // verus!
