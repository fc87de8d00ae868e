//! Program-derived addresses: an address computed from seeds and a program
//! id, for which no private key exists. Only the bump is stored; the address
//! is recomputed and compared whenever it has to be proven.
use crate::address::Address;
use anchor_lang::prelude::Pubkey;
use vstd::prelude::*;

verus! {

/// The program's own id, under which every address of a vault is derived.
pub const PROGRAM_ID: [u8; 32] = [
    251, 13, 7, 231, 62, 195, 105, 132, 150, 44, 57, 2, 106, 181, 163, 65,
    175, 208, 187, 221, 204, 163, 57, 234, 81, 128, 214, 166, 54, 223, 237, 81,
];

/// Seed tag of the keyless identity that signs transfers out of a vault.
pub const SEED_SIGNER: [u8; 6] = [115, 105, 103, 110, 101, 114];

/// Seed tag of the vault's token holding account.
pub const SEED_VAULT: [u8; 5] = [118, 97, 117, 108, 116];

/// The address that the derivation gives for these seeds and program id, or
/// `None` when it gives none (the hash is a curve point, or a seed is too long).
pub uninterp spec fn program_address(seeds: Seq<Seq<u8>>, program_id: Seq<u8>) -> Option<Seq<u8>>;

/// The canonical derived address and its bump for these seeds: the first bump,
/// counting down from 255, for which the derivation gives an address.
pub uninterp spec fn canonical_program_address(seeds: Seq<Seq<u8>>, program_id: Seq<u8>) -> Option<
    (Seq<u8>, u8),
>;

pub open spec fn address_opt_view(o: Option<Address>) -> Option<Seq<u8>> {
    match o {
        Some(a) => Some(a@),
        None => None,
    }
}

pub open spec fn found_opt_view(o: Option<(Address, u8)>) -> Option<(Seq<u8>, u8)> {
    match o {
        Some((a, b)) => Some((a@, b)),
        None => None,
    }
}

/// Whether `tag`, `origin` and `bump` re-derive exactly `addr` under `program_id`.
pub open spec fn derives(
    tag: Seq<u8>,
    origin: Seq<u8>,
    bump: u8,
    program_id: Seq<u8>,
    addr: Seq<u8>,
) -> bool {
    program_address(seq![tag, origin, seq![bump]], program_id) == Some(addr)
}

/// Relies on Pubkey::create_program_address: the address derived from the
/// seeds `[tag, origin, [bump]]` and the program id; its error becomes `None`.
#[verifier::external_body]
fn create_program_address(tag: &[u8], origin: &Address, bump: u8, program_id: &Address) -> (r:
    Option<Address>)
    ensures
        address_opt_view(r) == program_address(seq![tag@, origin@, seq![bump]], program_id@),
{
    let program = Pubkey::new_from_array(program_id.bytes);
    Pubkey::create_program_address(&[tag, &origin.bytes, &[bump]], &program).ok().map(
        |a| Address { bytes: a.to_bytes() },
    )
}

/// Relies on Pubkey::try_find_program_address: it tries the bumps from 255
/// down and returns the first address that create_program_address gives for
/// the seeds `[tag, origin, [bump]]`, with that bump.
#[verifier::external_body]
fn try_find_program_address(tag: &[u8], origin: &Address, program_id: &Address) -> (r: Option<
    (Address, u8),
>)
    ensures
        found_opt_view(r) == canonical_program_address(seq![tag@, origin@], program_id@),
        r matches Some((a, b)) ==> program_address(seq![tag@, origin@, seq![b]], program_id@)
            == Some(a@),
{
    let program = Pubkey::new_from_array(program_id.bytes);
    Pubkey::try_find_program_address(&[tag, &origin.bytes], &program).map(
        |(a, b)| (Address { bytes: a.to_bytes() }, b),
    )
}

/// Derives the canonical address and bump for `tag` and `origin`; the bump
/// returned re-derives the address.
pub fn derive_address(tag: &[u8], origin: &Address, program_id: &Address) -> (r: Option<(Address, u8)>)
    ensures
        found_opt_view(r) == canonical_program_address(seq![tag@, origin@], program_id@),
        r matches Some((a, b)) ==> derives(tag@, origin@, b, program_id@, a@),
{
    try_find_program_address(tag, origin, program_id)
}

/// Checks that `tag`, `origin` and a stored `bump` re-derive `expected`.
pub fn verify_derived(
    tag: &[u8],
    origin: &Address,
    bump: u8,
    program_id: &Address,
    expected: &Address,
) -> (r: bool)
    ensures
        r == derives(tag@, origin@, bump, program_id@, expected@),
{
    match create_program_address(tag, origin, bump, program_id) {
        Some(a) => a.same_as(expected),
        None => false,
    }
}

} // verus!
