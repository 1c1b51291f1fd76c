//! Identities: the opaque 32-byte values that name users, programs and
//! storage accounts.

use vstd::prelude::*;
use solana_program::pubkey::Pubkey;

verus! {

/// Number of bytes in an identity.
pub const IDENTITY_BYTES: usize = 32;

/// An opaque 32-byte public identifier. Two identities are the same only
/// if all their bytes are: none is ever taken for another.
#[derive(Clone, Copy, Debug, PartialEq, Eq)]
pub struct Identity {
    pub bytes: [u8; 32],
}

impl View for Identity {
    type V = Seq<u8>;

    open spec fn view(&self) -> Seq<u8> {
        self.bytes@
    }
}

/// Whether the 32 bytes `key` are the compressed form of a point of the
/// curve that signing keys lie on. This names what
/// `solana_program::pubkey::Pubkey::is_on_curve` answers; the curve
/// arithmetic behind it is not modelled here.
pub uninterp spec fn on_curve(key: Seq<u8>) -> bool;

/// Calls `Pubkey::is_on_curve` on the key made of these bytes. The answer
/// is a function of the bytes alone (the outside code decompresses them as
/// an Edwards point and reports whether that succeeded), which is all the
/// contract claims.
#[verifier::external_body]
fn key_is_on_curve(key: &[u8; 32]) -> (on: bool)
    ensures
        on == on_curve(key@),
{
    Pubkey::new_from_array(*key).is_on_curve()
}

impl Identity {
    /// Wraps 32 raw bytes.
    pub fn new(bytes: [u8; 32]) -> (id: Identity)
        ensures
            id@ == bytes@,
            id.bytes == bytes,
    {
        Identity { bytes }
    }

    /// Whether two identities hold the same 32 bytes.
    pub fn same_as(&self, other: &Identity) -> (same: bool)
        ensures
            same == (self@ == other@),
            same == (*self == *other),
    {
        let mut i: usize = 0;
        while i < 32
            invariant
                i <= 32,
                forall|j: int| 0 <= j < i ==> self.bytes[j] == other.bytes[j],
            decreases 32 - i,
        {
            if self.bytes[i] != other.bytes[i] {
                return false;
            }
            i += 1;
        }
        proof {
            assert(self.bytes@ =~= other.bytes@);
            assert(self.bytes =~= other.bytes);
        }
        true
    }

    /// Whether this identity could be a signing key, that is, whether it
    /// is a point of the signing curve. Derived addresses never are.
    pub fn is_on_curve(&self) -> (on: bool)
        ensures
            on == on_curve(self@),
    {
        key_is_on_curve(&self.bytes)
    }
}

} // verus!
