//! Deterministic derivation of the escrow's custody authority.

use vstd::prelude::*;
use anchor_lang::prelude::Pubkey;
use crate::state::{Address, Escrow};

verus! {

pub uninterp spec fn escrow_authority(program: Seq<u8>, maker: Seq<u8>, seed: u64, bump: u8) -> Option<Seq<u8>>;

/// Relies on `Pubkey::create_program_address` (re-exported by `anchor_lang`):
/// over the seeds `[b"escrow", maker, seed (little endian), bump]` and the
/// program id it returns an address that is a deterministic function of those
/// inputs alone, or an error when the hash lands on the ed25519 curve.
#[verifier::external_body]
pub(crate) fn derive_escrow_authority(program: &Address, maker: &Address, seed: u64, bump: u8) -> (r: Option<Address>)
    ensures
        r matches Some(a) ==> escrow_authority(program@, maker@, seed, bump) == Some(a@),
        r is None ==> escrow_authority(program@, maker@, seed, bump) is None,
{
    let program_id = Pubkey::new_from_array(program.bytes);
    let seed_bytes = seed.to_le_bytes();
    let bump_bytes = [bump];
    let seeds: [&[u8]; 4] = [b"escrow", &maker.bytes, &seed_bytes, &bump_bytes];
    match Pubkey::create_program_address(&seeds, &program_id) {
        Ok(pk) => Some(Address { bytes: pk.to_bytes() }),
        Err(_) => None,
    }
}

/// Relies on `Pubkey::try_find_program_address` (re-exported by
/// `anchor_lang`): over the seeds `[b"escrow", maker, seed (little endian)]`
/// and the program id it tries bump values from the largest downward and
/// returns the first one for which `create_program_address` succeeds,
/// together with the address so derived. It tries the bumps 255 down to 1 —
/// never 0 — so `None` comes back only when derivation failed for every one
/// of those, a statistically improbable event.
#[verifier::external_body]
fn find_escrow_authority(program: &Address, maker: &Address, seed: u64) -> (r: Option<(Address, u8)>)
    ensures
        r matches Some(found) ==> {
            &&& escrow_authority(program@, maker@, seed, found.1) == Some(found.0@)
            &&& forall|higher: u8| found.1 < higher ==> escrow_authority(program@, maker@, seed, higher) is None
        },
        r is None ==> forall|b: u8| 1 <= b ==> escrow_authority(program@, maker@, seed, b) is None,
{
    let program_id = Pubkey::new_from_array(program.bytes);
    let seed_bytes = seed.to_le_bytes();
    let seeds: [&[u8]; 3] = [b"escrow", &maker.bytes, &seed_bytes];
    match Pubkey::try_find_program_address(&seeds, &program_id) {
        Some((pk, bump)) => Some((Address { bytes: pk.to_bytes() }, bump)),
        None => None,
    }
}

/// Builds the escrow record for `(maker, seed)`, storing the unique bump —
/// the largest one for which derivation succeeds — and returns it together
/// with the custody authority that the stored bump re-derives. `None` only
/// when no bump from 255 down to 1 derives an address for `(maker, seed)`.
pub fn open_escrow(program: &Address, maker: &Address, mint_a: &Address, seed: u64) -> (r: Option<(Escrow, Address)>)
    ensures
        r matches Some(opened) ==> {
            &&& opened.0.maker == *maker
            &&& opened.0.mint_a == *mint_a
            &&& opened.0.seed == seed
            &&& escrow_authority(program@, maker@, seed, opened.0.bump) == Some(opened.1@)
            &&& forall|higher: u8| opened.0.bump < higher ==> escrow_authority(program@, maker@, seed, higher) is None
        },
        r is None ==> forall|b: u8| 1 <= b ==> escrow_authority(program@, maker@, seed, b) is None,
{
    match find_escrow_authority(program, maker, seed) {
        Some((vault_authority, bump)) => {
            let record = Escrow { maker: *maker, mint_a: *mint_a, seed, bump };
            Some((record, vault_authority))
        },
        None => None,
    }
}

} // verus!
