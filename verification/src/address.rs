//! The authority of a pool: an address derived from the pool's own address
//! and the program that runs it, which no private key can sign for.

use crate::error::SwapError;
use crate::state::Key;
use vstd::prelude::*;

verus! {

/// The address that the Solana runtime derives for a program from two
/// seeds, the thirty-two bytes `info` and the single byte `bump_seed`, or
/// nothing where the derived bytes are a point of the ed25519 curve and so
/// could be a public key. The address is a hash of the seeds, the program's
/// address and a fixed marker, so it depends on these alone.
pub uninterp spec fn program_address(info: Seq<u8>, bump_seed: u8, program_id: Seq<u8>) -> Option<
    Seq<u8>,
>;

/// The address and the bump seed that the Solana runtime finds for a program
/// from the one seed `info`: it tries the bump seeds from 255 downwards and
/// takes the first that derives an address, or finds nothing where none
/// does.
pub uninterp spec fn found_program_address(info: Seq<u8>, program_id: Seq<u8>) -> Option<
    (Seq<u8>, u8),
>;

/// The bytes of an optional address.
pub open spec fn opt_key_view(key: Option<Key>) -> Option<Seq<u8>> {
    match key {
        Some(k) => Some(k@),
        None => None,
    }
}

/// The bytes of an optional address with its bump seed.
pub open spec fn opt_found_view(found: Option<(Key, u8)>) -> Option<(Seq<u8>, u8)> {
    match found {
        Some((k, bump_seed)) => Some((k@, bump_seed)),
        None => None,
    }
}

/// Calls `Pubkey::create_program_address` of `solana-program` with the seeds
/// `info` and `bump_seed`. Both seeds are within the length that it accepts,
/// so it fails only where the derived bytes lie on the curve.
#[verifier::external_body]
fn solana_create_program_address(info: &Key, bump_seed: u8, program_id: &Key) -> (r: Option<Key>)
    ensures
        opt_key_view(r) == program_address(info@, bump_seed, program_id@),
{
    let program = anchor_lang::solana_program::pubkey::Pubkey::new_from_array(*program_id);
    match anchor_lang::solana_program::pubkey::Pubkey::create_program_address(
        &[&info[..], &[bump_seed]],
        &program,
    ) {
        Ok(address) => Some(address.to_bytes()),
        Err(_) => None,
    }
}

/// Calls `Pubkey::try_find_program_address` of `solana-program` with the one
/// seed `info`. What it finds is an address that `create_program_address`
/// derives from `info` and the bump seed found with it.
#[verifier::external_body]
fn solana_try_find_program_address(info: &Key, program_id: &Key) -> (r: Option<(Key, u8)>)
    ensures
        opt_found_view(r) == found_program_address(info@, program_id@),
        r matches Some((address, bump_seed)) ==> program_address(info@, bump_seed, program_id@)
            == Some(address@),
{
    let program = anchor_lang::solana_program::pubkey::Pubkey::new_from_array(*program_id);
    match anchor_lang::solana_program::pubkey::Pubkey::try_find_program_address(
        &[&info[..]],
        &program,
    ) {
        Some((address, bump_seed)) => Some((address.to_bytes(), bump_seed)),
        None => None,
    }
}

/// What [`authority_key`] returns for a derived address.
pub open spec fn spec_authority_key(derived: Option<Seq<u8>>, r: Result<Key, SwapError>) -> bool {
    match derived {
        Some(address) => r matches Ok(key) && key@ == address,
        None => r matches Err(e) && e == SwapError::InvalidProgramAddress,
    }
}

/// The authority of the pool at `info` under `program_id`, as `bump_seed`
/// derives it. A bump seed that derives no address is refused.
pub fn authority_key(program_id: &Key, info: Key, bump_seed: u8) -> (r: Result<Key, SwapError>)
    ensures
        spec_authority_key(program_address(info@, bump_seed, program_id@), r),
{
    match solana_create_program_address(&info, bump_seed, program_id) {
        Some(address) => Ok(address),
        None => Err(SwapError::InvalidProgramAddress),
    }
}

/// The authority of the pool at `info` under `program_id` with the bump
/// seed that derives it, or nothing where no bump seed derives one. The
/// bump seed found derives the authority found.
pub fn find_authority(program_id: &Key, info: &Key) -> (r: Option<(Key, u8)>)
    ensures
        opt_found_view(r) == found_program_address(info@, program_id@),
        r matches Some((address, bump_seed)) ==> program_address(info@, bump_seed, program_id@)
            == Some(address@),
{
    solana_try_find_program_address(info, program_id)
}

} // verus!
