//! The ways an invocation can fail.

use vstd::prelude::*;

verus! {

/// Why an invocation was aborted. Every failure is fatal for the
/// invocation it occurs in: nothing is retried and no partial effect
/// remains.
#[derive(Clone, Copy, Debug, PartialEq, Eq, Structural)]
pub enum ProtocolError {
    /// Bytes do not have the fixed layout they are read as.
    MalformedPayload,
    /// Fewer account handles were supplied than the instruction needs.
    MissingAccount,
    /// A supplied storage handle does not sit at the derived address.
    AddressMismatch,
    /// The storage account is not owned by the invoked program.
    Unauthorized,
    /// The encoded record is larger than the account's provisioned space.
    StorageOverflow,
    /// No disambiguator gave a usable derived address.
    NoValidAddressFound,
    /// A nested call was rejected; `code` is what the callee reported.
    ForwardedCallFailed { code: u64 },
}

} // verus!
