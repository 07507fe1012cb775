use vstd::prelude::*;
use anchor_lang::solana_program::pubkey::Pubkey;
use vstd::string::StringSliceAdditionalSpecFns;
use crate::address::Address;

verus! {

/// Longest seed, in bytes, from which an address can be derived.
pub const MAX_SEED_LEN: usize = 32;

/// The program-derived address and bump seed found for `seeds` under
/// `program_id`, or `None` when the search finds none.
pub uninterp spec fn program_address(seeds: Seq<Seq<u8>>, program_id: Seq<u8>) -> Option<(Seq<u8>, u8)>;

/// The view of a derivation result: the address as bytes, with its bump seed.
pub open spec fn derivation_view(r: Option<(Address, u8)>) -> Option<(Seq<u8>, u8)> {
    match r {
        Some((a, bump)) => Some((a@, bump)),
        None => None,
    }
}

/// The seeds of the escrow holder of the tournament `id`.
pub open spec fn escrow_seeds(id: Seq<u8>) -> Seq<Seq<u8>> {
    seq!["escrow".spec_bytes(), id]
}

/// Relies on `Pubkey::try_find_program_address` of solana-program: it returns the
/// address derived from the two seeds and the program id with its bump seed, and
/// `None` when a seed is longer than `MAX_SEED_LEN` bytes or no bump seed works.
#[verifier::external_body]
fn try_find_program_address(prefix: &[u8], id: &[u8], program_id: &Address) -> (r: Option<(Address, u8)>)
    ensures
        derivation_view(r) == program_address(seq![prefix@, id@], program_id@),
        prefix@.len() > MAX_SEED_LEN || id@.len() > MAX_SEED_LEN ==> r is None,
{
    Pubkey::try_find_program_address(&[prefix, id], &Pubkey::new_from_array(program_id.bytes))
        .map(|(key, bump)| (Address { bytes: key.to_bytes() }, bump))
}

/// Derives the escrow holder's address and bump seed for the tournament `id`.
pub fn find_escrow_address(id: &str, program_id: &Address) -> (r: Option<(Address, u8)>)
    ensures
        derivation_view(r) == program_address(escrow_seeds(id.spec_bytes()), program_id@),
        id.spec_bytes().len() > MAX_SEED_LEN ==> r is None,
{
    let prefix = "escrow".as_bytes();
    try_find_program_address(prefix, id.as_bytes(), program_id)
}

} // verus!
