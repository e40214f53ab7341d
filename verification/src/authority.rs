//! Derived authorities: addresses that are computed from a namespace and an identity,
//! for which nobody holds a key. The bump seed found with the address is the proof that
//! lets the host sign on its behalf.

use crate::address::{address_extensionality, Address};
use anchor_lang::prelude::Pubkey;
use vstd::prelude::*;

verus! {

/// A derived address and the bump seed that makes it valid.
#[derive(Clone, Copy, Debug, PartialEq, Eq)]
pub struct DerivedAuthority {
    /// The derived address.
    pub address: Address,
    /// The bump seed.
    pub bump: u8,
}

/// What signs for a derived address: the inputs of the derivation and the bump seed.
#[derive(Clone, Debug, PartialEq, Eq)]
pub struct AuthorityProof {
    /// The namespace of the derivation.
    pub namespace: Vec<u8>,
    /// The identity that the address was derived from.
    pub id: Address,
    /// The bump seed.
    pub bump: u8,
}

/// An authority proof by its contents.
pub struct AuthorityProofView {
    pub namespace: Seq<u8>,
    pub id: Address,
    pub bump: u8,
}

impl View for AuthorityProof {
    type V = AuthorityProofView;

    open spec fn view(&self) -> AuthorityProofView {
        AuthorityProofView { namespace: self.namespace@, id: self.id, bump: self.bump }
    }
}

/// What the host's program-address search yields for `seeds` under `program_id`: the
/// derived address and its bump seed, or `None` where no bump seed gives a valid
/// address.
pub uninterp spec fn program_address(seeds: Seq<Seq<u8>>, program_id: Seq<u8>) -> Option<
    (Seq<u8>, u8),
>;

/// A derivation's outcome by its bytes.
pub open spec fn derivation(found: Option<DerivedAuthority>) -> Option<(Seq<u8>, u8)> {
    match found {
        Some(authority) => Some((authority.address@, authority.bump)),
        None => None,
    }
}

/// The address that has the given bytes.
pub open spec fn address_of(bytes: Seq<u8>) -> Address {
    choose|address: Address| address@ == bytes
}

/// The authority of `id` in `namespace` under `program_id`: the address that the
/// host derives from these, with its bump seed.
pub open spec fn derived(namespace: Seq<u8>, id: Address, program_id: Address) -> Option<
    DerivedAuthority,
> {
    match program_address(seq![namespace, id@], program_id@) {
        Some((bytes, bump)) => Some(DerivedAuthority { address: address_of(bytes), bump }),
        None => None,
    }
}

/// The namespace of escrow authorities: the bytes of `treasurer`.
pub open spec fn treasurer_seed() -> Seq<u8> {
    seq![116u8, 114u8, 101u8, 97u8, 115u8, 117u8, 114u8, 101u8, 114u8]
}

/// The namespace of escrow authorities.
pub fn treasurer_namespace() -> (namespace: Vec<u8>)
    ensures
        namespace@ == treasurer_seed(),
{
    let namespace: Vec<u8> = vec![116u8, 114u8, 101u8, 97u8, 115u8, 117u8, 114u8, 101u8, 114u8];
    assert(namespace@ =~= treasurer_seed());
    namespace
}

/// Calls `Pubkey::try_find_program_address` with the two seeds `namespace` and `id`.
/// Off chain that search reads nothing but the seeds and the program id (it hashes them
/// with bump seeds from 255 downward until the hash is a valid address): the contract
/// gives its result a name and claims nothing else of it.
#[verifier::external_body]
fn find_program_address(namespace: &[u8], id: &Address, program_id: &Address) -> (found: Option<
    DerivedAuthority,
>)
    ensures
        derivation(found) == program_address(seq![namespace@, id@], program_id@),
{
    let program = Pubkey::new_from_array(program_id.bytes);
    match Pubkey::try_find_program_address(&[namespace, &id.bytes], &program) {
        Some((key, bump)) => Some(DerivedAuthority { address: Address { bytes: key.to_bytes() }, bump }),
        None => None,
    }
}

/// Derives the authority of `id` in `namespace` under `program_id`. The same inputs
/// give the same address and the same bump seed, whoever asks and whenever.
pub fn derive(namespace: &[u8], id: &Address, program_id: &Address) -> (found: Option<
    DerivedAuthority,
>)
    ensures
        found == derived(namespace@, *id, *program_id),
        derivation(found) == program_address(seq![namespace@, id@], program_id@),
{
    let found = find_program_address(namespace, id, program_id);
    proof {
        if let Some(authority) = found {
            address_extensionality(authority.address, address_of(authority.address@));
        }
    }
    found
}

/// Derives the authority over the escrow account of `candidate`.
pub fn treasurer(candidate: &Address, program_id: &Address) -> (found: Option<DerivedAuthority>)
    ensures
        found == derived(treasurer_seed(), *candidate, *program_id),
{
    let namespace = treasurer_namespace();
    derive(namespace.as_slice(), candidate, program_id)
}

/// Whether the proof opens `authority`, given what deriving from the proof's namespace
/// and identity has `found`: that address, with the proof's bump seed.
pub open spec fn proof_opens(
    proof: AuthorityProofView,
    authority: Address,
    found: Option<DerivedAuthority>,
) -> bool {
    found == Some(DerivedAuthority { address: authority, bump: proof.bump })
}

impl AuthorityProof {
    /// Whether the proof opens `authority`, given what deriving from the proof's
    /// namespace and identity has `found`.
    pub fn opens_with(&self, authority: &Address, found: Option<DerivedAuthority>) -> (open: bool)
        ensures
            open == proof_opens(self@, *authority, found),
    {
        match found {
            Some(authority_found) => authority_found.address == *authority
                && authority_found.bump == self.bump,
            None => false,
        }
    }

    /// Whether the proof opens `authority` under `program_id`: whether a move out of an
    /// account of `authority` may be signed with it.
    pub fn opens(&self, authority: &Address, program_id: &Address) -> (open: bool)
        ensures
            open == proof_opens(
                self@,
                *authority,
                derived(self.namespace@, self.id, *program_id),
            ),
    {
        let found = derive(self.namespace.as_slice(), &self.id, program_id);
        self.opens_with(authority, found)
    }
}

/// Derivation is a function of its inputs: whatever two derivations from the same
/// namespace and identity under the same program have found, they agree in the address
/// and in the bump seed.
pub proof fn derivation_is_deterministic(
    namespace: Seq<u8>,
    id: Address,
    program_id: Address,
    first: Option<DerivedAuthority>,
    second: Option<DerivedAuthority>,
)
    requires
        derivation(first) == program_address(seq![namespace, id@], program_id@),
        derivation(second) == program_address(seq![namespace, id@], program_id@),
    ensures
        first == second,
        first == derived(namespace, id, program_id),
{
    if let Some(a) = first {
        let b = second->Some_0;
        address_extensionality(a.address, b.address);
        address_extensionality(a.address, address_of(a.address@));
    }
}

} // verus!
