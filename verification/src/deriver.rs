//! Derivation of the canonical storage address of a user's record.
//!
//! The address of a record is computed from a namespace tag, the owner's
//! identity and the identity of the program that controls it. It is never
//! taken from a caller. The seeds that led to it stand in for a private
//! key: whoever can present them may act for the address.

use vstd::prelude::*;
use solana_program::pubkey::Pubkey;
use crate::error::ProtocolError;
use crate::identity::{on_curve, Identity};

verus! {

/// The class of record an address is derived for.
#[derive(Clone, Copy, Debug, PartialEq, Eq, Structural)]
pub enum Namespace {
    Address,
    Profile,
}

impl Namespace {
    /// The constant byte tag of the namespace: the ASCII letters of
    /// `address` or of `profile`.
    pub open spec fn tag(self) -> Seq<u8> {
        match self {
            Namespace::Address => seq![97u8, 100u8, 100u8, 114u8, 101u8, 115u8, 115u8],
            Namespace::Profile => seq![112u8, 114u8, 111u8, 102u8, 105u8, 108u8, 101u8],
        }
    }

    /// The tag as bytes.
    pub fn tag_bytes(self) -> (tag: [u8; 7])
        ensures
            tag@ == self.tag(),
    {
        let tag: [u8; 7] = match self {
            Namespace::Address => [97u8, 100u8, 100u8, 114u8, 101u8, 115u8, 115u8],
            Namespace::Profile => [112u8, 114u8, 111u8, 102u8, 105u8, 108u8, 101u8],
        };
        assert(tag@ =~= self.tag());
        tag
    }
}

/// The seeds that an address was derived from. Presented with a request,
/// they prove the right to act for that address.
#[derive(Clone, Copy, Debug, PartialEq, Eq)]
pub struct SeedProof {
    pub namespace: Namespace,
    pub owner: Identity,
    pub bump: u8,
}

/// The seeds of `owner`'s record in `namespace`, as they are presented:
/// tag, owner, disambiguator.
pub open spec fn seeds_of(namespace: Namespace, owner: Seq<u8>, bump: u8) -> Seq<Seq<u8>> {
    seq![namespace.tag(), owner, seq![bump]]
}

impl View for SeedProof {
    type V = Seq<Seq<u8>>;

    open spec fn view(&self) -> Seq<Seq<u8>> {
        seeds_of(self.namespace, self.owner@, self.bump)
    }
}

/// What `solana_program::pubkey::Pubkey::create_program_address` returns
/// for these seeds and this program: the address that the seeds lead to,
/// or nothing where they lead to none. It is by this address that seeds
/// presented with a request are held to the account they are to sign for.
pub uninterp spec fn seeded_address(seeds: Seq<Seq<u8>>, program_id: Seq<u8>) -> Option<Seq<u8>>;

/// Calls `Pubkey::create_program_address` with the three seeds `tag`,
/// `owner` and the one byte `bump`. The contract claims only that the
/// outcome, an address or none, is a function of the four values.
#[verifier::external_body]
fn create_program_address(tag: &[u8; 7], owner: &[u8; 32], bump: u8, program_id: &[u8; 32]) -> (created:
    Option<[u8; 32]>)
    ensures
        match created {
            Some(address) => seeded_address(seq![tag@, owner@, seq![bump]], program_id@) == Some(
                address@,
            ),
            None => seeded_address(seq![tag@, owner@, seq![bump]], program_id@) is None,
        },
{
    Pubkey::create_program_address(
        &[&tag[..], &owner[..], &[bump]],
        &Pubkey::new_from_array(*program_id),
    ).ok().map(|address| address.to_bytes())
}

impl SeedProof {
    /// Whether these seeds prove authority over `account` under the
    /// program `program_id`, that is, whether `account` is the address
    /// they lead to.
    pub fn authorizes(&self, program_id: &Identity, account: &Identity) -> (yes: bool)
        ensures
            yes == (seeded_address(self@, program_id@) == Some(account@)),
    {
        let tag: [u8; 7] = self.namespace.tag_bytes();
        match create_program_address(&tag, &self.owner.bytes, self.bump, &program_id.bytes) {
            Some(address) => Identity::new(address).same_as(account),
            None => false,
        }
    }
}

/// What `solana_program::pubkey::Pubkey::try_find_program_address` returns
/// for these seeds and this program: the address and the disambiguator it
/// settled on, or nothing. The search hashes the seeds and tests curve
/// membership; neither is modelled here.
pub uninterp spec fn program_address(seeds: Seq<Seq<u8>>, program_id: Seq<u8>) -> Option<
    (Seq<u8>, u8),
>;

/// Calls `Pubkey::try_find_program_address` with the two seeds `tag` and
/// `owner`. The contract claims that the outcome is a function of the
/// three byte strings. Of an address that is returned it claims two
/// things more, both read off the outside code, which returns an address
/// only as `create_program_address` gave it for the seeds with the
/// disambiguator appended, and that function gives none on which its
/// curve test succeeds: the seeds completed by the disambiguator lead to
/// the address, and the address is not a point of the signing curve.
#[verifier::external_body]
fn find_program_address(tag: &[u8; 7], owner: &[u8; 32], program_id: &[u8; 32]) -> (found: Option<
    ([u8; 32], u8),
>)
    ensures
        match found {
            Some((address, bump)) => {
                &&& program_address(seq![tag@, owner@], program_id@) == Some((address@, bump))
                &&& seeded_address(seq![tag@, owner@, seq![bump]], program_id@) == Some(address@)
                &&& !on_curve(address@)
            },
            None => program_address(seq![tag@, owner@], program_id@) is None,
        },
{
    Pubkey::try_find_program_address(&[&tag[..], &owner[..]], &Pubkey::new_from_array(*program_id))
        .map(|(address, bump)| (address.to_bytes(), bump))
}

/// The canonical address of `owner`'s record in `namespace` under
/// `program_id`, with its disambiguator, if there is one.
pub open spec fn derived_address(namespace: Namespace, owner: Seq<u8>, program_id: Seq<u8>)
    -> Option<(Seq<u8>, u8)> {
    program_address(seq![namespace.tag(), owner], program_id)
}

/// What `derive_address` may return for the given inputs.
pub open spec fn derives_to(
    namespace: Namespace,
    owner: Seq<u8>,
    program_id: Seq<u8>,
    derived: Result<(Identity, u8), ProtocolError>,
) -> bool {
    match derived_address(namespace, owner, program_id) {
        Some((address, bump)) => derived matches Ok((found, found_bump)) && found@ == address
            && found_bump == bump,
        None => derived == Err::<(Identity, u8), ProtocolError>(
            ProtocolError::NoValidAddressFound,
        ),
    }
}

/// Turns the outcome of the search for a program address into the
/// deriver's answer: the address found, with its disambiguator, or the
/// failure to find any.
pub fn resolve(found: Option<([u8; 32], u8)>) -> (derived: Result<(Identity, u8), ProtocolError>)
    ensures
        match found {
            Some((address, bump)) => derived matches Ok((id, found_bump)) && id.bytes == address
                && found_bump == bump,
            None => derived == Err::<(Identity, u8), ProtocolError>(
                ProtocolError::NoValidAddressFound,
            ),
        },
{
    match found {
        Some((address, bump)) => Ok((Identity::new(address), bump)),
        None => Err(ProtocolError::NoValidAddressFound),
    }
}

/// Derives the canonical address of `owner`'s record in `namespace`, as
/// controlled by the program `program_id`, together with the
/// disambiguator that completes the seeds.
///
/// The result depends on the three inputs alone. An address that is
/// returned is never a point of the signing curve, so no private key
/// exists for it, and the seeds completed by the disambiguator lead to
/// it, so they prove authority over it.
pub fn derive_address(namespace: Namespace, owner: &Identity, program_id: &Identity) -> (derived:
    Result<(Identity, u8), ProtocolError>)
    ensures
        derives_to(namespace, owner@, program_id@, derived),
        derived matches Ok((address, bump)) ==> !on_curve(address@) && seeded_address(
            seeds_of(namespace, owner@, bump),
            program_id@,
        ) == Some(address@),
{
    let tag: [u8; 7] = namespace.tag_bytes();
    resolve(find_program_address(&tag, &owner.bytes, &program_id.bytes))
}

/// Derivation is deterministic: whatever `derive_address` returns for a
/// namespace, an owner and a program, it returns every time.
pub proof fn derivation_is_deterministic(
    namespace: Namespace,
    owner: Seq<u8>,
    program_id: Seq<u8>,
    first: Result<(Identity, u8), ProtocolError>,
    second: Result<(Identity, u8), ProtocolError>,
)
    requires
        derives_to(namespace, owner, program_id, first),
        derives_to(namespace, owner, program_id, second),
    ensures
        first == second,
{
    if let Ok((a, _)) = first {
        if let Ok((b, _)) = second {
            assert(a.bytes =~= b.bytes);
        }
    }
}

} // verus!
