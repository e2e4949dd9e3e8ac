//! Identifiers of staking accounts and of consensus validators.

use vstd::prelude::*;
use vstd::std_specs::cmp::PartialEqSpecImpl;

verus! {

/// Seconds since the epoch.
pub type Timespec = u64;

/// The number of a block in the chain.
pub type BlockHeight = u64;

/// Whether two byte strings of the same fixed length hold the same bytes.
fn same_bytes<const N: usize>(a: &[u8; N], b: &[u8; N]) -> (r: bool)
    ensures
        r == (*a == *b),
{
    let mut i: usize = 0;
    while i < N
        invariant
            i <= N,
            forall|j: int| 0 <= j < i ==> a[j] == b[j],
        decreases N - i,
    {
        if a[i] != b[i] {
            return false;
        }
        i += 1;
    }
    assert(*a =~= *b);
    true
}

/// The identifier of a staking account.
#[derive(Debug, Clone, Copy, Eq)]
pub struct StakedStateAddress(pub [u8; 20]);

impl PartialEq for StakedStateAddress {
    fn eq(&self, other: &Self) -> (r: bool) {
        same_bytes(&self.0, &other.0)
    }
}

impl PartialEqSpecImpl for StakedStateAddress {
    open spec fn obeys_eq_spec() -> bool {
        true
    }

    open spec fn eq_spec(&self, other: &Self) -> bool {
        *self == *other
    }
}

/// The public key with which a validator signs in consensus.
#[derive(Debug, Clone, Copy, Eq)]
pub enum TendermintValidatorPubKey {
    /// An Ed25519 key.
    Ed25519([u8; 32]),
}

impl TendermintValidatorPubKey {
    /// The bytes of the key.
    pub open spec fn bytes(self) -> Seq<u8> {
        match self {
            TendermintValidatorPubKey::Ed25519(key) => key@,
        }
    }
}

impl PartialEq for TendermintValidatorPubKey {
    fn eq(&self, other: &Self) -> (r: bool) {
        match (self, other) {
            (TendermintValidatorPubKey::Ed25519(a), TendermintValidatorPubKey::Ed25519(b)) => {
                same_bytes(a, b)
            },
        }
    }
}

impl PartialEqSpecImpl for TendermintValidatorPubKey {
    open spec fn obeys_eq_spec() -> bool {
        true
    }

    open spec fn eq_spec(&self, other: &Self) -> bool {
        *self == *other
    }
}

/// The identifier under which consensus knows a validator: the first twenty
/// bytes of the SHA-256 digest of its public key.
#[derive(Debug, Clone, Copy, Eq)]
pub struct TendermintValidatorAddress(pub [u8; 20]);

impl PartialEq for TendermintValidatorAddress {
    fn eq(&self, other: &Self) -> (r: bool) {
        same_bytes(&self.0, &other.0)
    }
}

impl PartialEqSpecImpl for TendermintValidatorAddress {
    open spec fn obeys_eq_spec() -> bool {
        true
    }

    open spec fn eq_spec(&self, other: &Self) -> bool {
        *self == *other
    }
}

/// The SHA-256 digest of a byte string.
pub uninterp spec fn sha256(data: Seq<u8>) -> Seq<u8>;

/// Calls `sha2::Sha256::digest` (the `Digest` trait of the `sha2` crate) on
/// `data`. Trusted: the 32 bytes returned are the SHA-256 digest of `data`,
/// which depends on the bytes of `data` alone.
#[verifier::external_body]
fn sha256_digest(data: &[u8]) -> (digest: [u8; 32])
    ensures
        digest@ == sha256(data@),
{
    <sha2::Sha256 as sha2::Digest>::digest(data).into()
}

impl TendermintValidatorAddress {
    /// The address that belongs to a public key.
    pub closed spec fn of_pubkey(key: TendermintValidatorPubKey) -> TendermintValidatorAddress {
        choose|a: TendermintValidatorAddress| a.0@ == sha256(key.bytes()).subrange(0, 20)
    }

    /// Whoever holds the first twenty bytes of the digest of `key` holds the
    /// address of `key`.
    pub proof fn lemma_of_pubkey(key: TendermintValidatorPubKey, a: TendermintValidatorAddress)
        requires
            a.0@ == sha256(key.bytes()).subrange(0, 20),
        ensures
            a == Self::of_pubkey(key),
    {
        let b = Self::of_pubkey(key);
        assert(b.0@ == a.0@);
        assert(b.0 =~= a.0);
    }

    /// The address that a digest gives: its first twenty bytes.
    pub fn from_digest(digest: &[u8; 32]) -> (a: TendermintValidatorAddress)
        ensures
            a.0@ == digest@.subrange(0, 20),
    {
        let mut out: [u8; 20] = [0u8; 20];
        let mut i: usize = 0;
        while i < 20
            invariant
                i <= 20,
                forall|j: int| 0 <= j < i ==> out[j] == digest[j],
            decreases 20 - i,
        {
            out[i] = digest[i];
            i += 1;
        }
        assert(out@ =~= digest@.subrange(0, 20));
        TendermintValidatorAddress(out)
    }

    /// Derives the address of a public key.
    pub fn from_pubkey(key: &TendermintValidatorPubKey) -> (a: TendermintValidatorAddress)
        ensures
            a == Self::of_pubkey(*key),
            a.0@ == sha256(key.bytes()).subrange(0, 20),
    {
        let digest = match key {
            TendermintValidatorPubKey::Ed25519(bytes) => sha256_digest(bytes.as_slice()),
        };
        let a = Self::from_digest(&digest);
        proof {
            Self::lemma_of_pubkey(*key, a);
        }
        a
    }
}

} // verus!
