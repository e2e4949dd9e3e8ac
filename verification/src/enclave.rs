//! Attestation of the membership package of a node.

use crate::address::Timespec;
use vstd::prelude::*;

verus! {

/// What a membership package that passed attestation says of the enclave that
/// made it.
#[derive(Debug, Clone, Copy, PartialEq, Eq, Structural)]
pub struct AttestationInfo {
    /// The security version number of the enclave build.
    pub isv_svn: u16,
}

/// Why a membership package did not pass.
#[derive(Debug, Clone, Copy, PartialEq, Eq, Structural)]
pub enum VerifyError {
    /// The bytes are no membership package.
    Decode,
    /// The package is one, and attestation rejects it.
    Verify,
}

/// The verdict to use where no enclave is at hand: no package is looked at,
/// every one passes, and the version reported is 0.
///
/// Handing this function to the state machine is choosing to run without
/// attestation.
pub fn mock_verify(keypackage: &[u8], time: Timespec) -> (verdict: Result<
    AttestationInfo,
    VerifyError,
>)
    ensures
        verdict == Ok::<AttestationInfo, VerifyError>(AttestationInfo { isv_svn: 0 }),
{
    Ok(AttestationInfo { isv_svn: 0 })
}

} // verus!
