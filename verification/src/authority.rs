//! The signing authority over the vault of one record.
//!
//! Nobody holds a key for it. Its address is derived from the program's own
//! identity and the identity of the record slot, and the seeds of that
//! derivation are what the program presents in place of a signature.

use crate::state::{to_vec, Identity};
use solana_program::pubkey::Pubkey;
use vstd::prelude::*;

verus! {

/// The address and the bump seed that `Pubkey::try_find_program_address`
/// finds for `seeds` under the program `program_id`, if it finds any.
pub uninterp spec fn program_address(seeds: Seq<Seq<u8>>, program_id: Seq<u8>) -> Option<
    (Seq<u8>, u8),
>;

/// The tag that sets this program's authorities apart: the text `vesting`.
pub open spec fn authority_tag() -> Seq<u8> {
    seq![118u8, 101, 115, 116, 105, 110, 103]
}

/// The seeds from which the authority for the record slot `record_id` is
/// derived.
pub open spec fn authority_seeds(record_id: Seq<u8>) -> Seq<Seq<u8>> {
    seq![authority_tag(), record_id]
}

/// The seeds that sign for the authority of the record slot `record_id`
/// whose derivation ended on the bump seed `bump`.
pub open spec fn signer_seeds(record_id: Seq<u8>, bump: u8) -> Seq<Seq<u8>> {
    authority_seeds(record_id).push(seq![bump])
}

/// The byte strings that the vectors of `seeds` hold.
pub open spec fn seeds_view(seeds: Seq<Vec<u8>>) -> Seq<Seq<u8>> {
    Seq::new(seeds.len(), |i: int| seeds[i]@)
}

/// The derived authority over a vault.
#[derive(Clone, Debug, PartialEq, Eq)]
pub struct Authority {
    /// The address that holds the vault.
    pub address: Identity,
    /// The seeds to present to the transfer service in place of a signature.
    pub signer_seeds: Vec<Vec<u8>>,
}

/// The mathematical model of an [`Authority`].
pub ghost struct AuthorityView {
    pub address: Seq<u8>,
    pub signer_seeds: Seq<Seq<u8>>,
}

impl View for Authority {
    type V = AuthorityView;

    open spec fn view(&self) -> AuthorityView {
        AuthorityView { address: self.address@, signer_seeds: seeds_view(self.signer_seeds@) }
    }
}

/// The authority for the record slot `record_id` under the program
/// `program_id`, if the derivation finds one.
pub open spec fn authority_of(program_id: Seq<u8>, record_id: Seq<u8>) -> Option<AuthorityView> {
    match program_address(authority_seeds(record_id), program_id) {
        Some((address, bump)) => Some(
            AuthorityView { address, signer_seeds: signer_seeds(record_id, bump) },
        ),
        None => None,
    }
}

/// Calls `Pubkey::try_find_program_address`: the result is the address and the
/// bump seed that the derivation finds for these seeds under this program, or
/// `None` where it finds none.
#[verifier::external_body]
fn find_program_address(seeds: &Vec<Vec<u8>>, program_id: &Identity) -> (r: Option<(Identity, u8)>)
    ensures
        match r {
            Some((address, bump)) => program_address(seeds_view(seeds@), program_id@) == Some(
                (address@, bump),
            ),
            None => program_address(seeds_view(seeds@), program_id@) is None,
        },
{
    let parts: Vec<&[u8]> = seeds.iter().map(|seed| seed.as_slice()).collect();
    let found = Pubkey::try_find_program_address(&parts, &Pubkey::from(*program_id));
    found.map(|(address, bump)| (address.to_bytes(), bump))
}

/// The seeds from which the authority for the record slot `record_id` is
/// derived.
fn seeds_for(record_id: &Identity) -> (seeds: Vec<Vec<u8>>)
    ensures
        seeds_view(seeds@) == authority_seeds(record_id@),
{
    let tag: [u8; 7] = [118, 101, 115, 116, 105, 110, 103];
    let mut seeds: Vec<Vec<u8>> = Vec::new();
    seeds.push(to_vec(&tag));
    seeds.push(to_vec(record_id));
    proof {
        assert(seeds@[0]@ =~= authority_tag());
        assert(seeds_view(seeds@) =~= authority_seeds(record_id@));
    }
    seeds
}

impl Authority {
    /// The authority for the record slot `record_id` whose derivation gave
    /// `address` and ended on the bump seed `bump`.
    pub fn from_derivation(record_id: &Identity, address: Identity, bump: u8) -> (a: Authority)
        ensures
            a@ == (AuthorityView { address: address@, signer_seeds: signer_seeds(record_id@, bump) }),
    {
        let mut seeds = seeds_for(record_id);
        let ghost before = seeds_view(seeds@);
        let mut last: Vec<u8> = Vec::new();
        last.push(bump);
        seeds.push(last);
        proof {
            assert(before.len() == 2);
            assert(seeds@[2]@ =~= seq![bump]);
            assert(seeds_view(seeds@) =~= before.push(seq![bump]));
        }
        Authority { address, signer_seeds: seeds }
    }
}

/// Derives the authority over the vault of the record slot `record_id` under
/// the program `program_id`. The result depends on these two alone.
pub fn derive_authority(program_id: &Identity, record_id: &Identity) -> (r: Option<Authority>)
    ensures
        match r {
            Some(a) => authority_of(program_id@, record_id@) == Some(a@),
            None => authority_of(program_id@, record_id@) is None,
        },
{
    let seeds = seeds_for(record_id);
    match find_program_address(&seeds, program_id) {
        Some((address, bump)) => Some(Authority::from_derivation(record_id, address, bump)),
        None => None,
    }
}

} // verus!
