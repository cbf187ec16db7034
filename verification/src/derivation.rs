//! Program-derived addresses: an address computed from seeds and the identity
//! of the deriving program instead of being chosen freely.

use crate::identity::Identity;
use anchor_lang::prelude::Pubkey;
use vstd::prelude::*;

verus! {

/// The address that `seeds` derive under `program`, or `None` where they derive
/// none (too many seeds, a seed that is too long, or a hash that is a point of
/// the curve).
pub uninterp spec fn program_address(seeds: Seq<Seq<u8>>, program: Seq<u8>) -> Option<Seq<u8>>;

/// The first address, trying the bump seeds from 255 down to 1, that `seeds`
/// followed by the bump derive under `program`, with that bump; `None` where
/// no bump gives one.
pub uninterp spec fn found_program_address(seeds: Seq<Seq<u8>>, program: Seq<u8>) -> Option<
    (Seq<u8>, u8),
>;

/// The bytes of an identity that may be absent.
pub open spec fn address_bytes(address: Option<Identity>) -> Option<Seq<u8>> {
    match address {
        Some(a) => Some(a@),
        None => None,
    }
}

/// The bytes of an identity and the bump found with it.
pub open spec fn found_bytes(found: Option<(Identity, u8)>) -> Option<(Seq<u8>, u8)> {
    match found {
        Some((a, bump)) => Some((a@, bump)),
        None => None,
    }
}

/// Calls `Pubkey::create_program_address` on the seeds and the program. The
/// derivation hashes its arguments and tests the hash against the curve, so the
/// outcome is a function of the arguments alone; an error of any kind is `None`.
#[verifier::external_body]
pub(crate) fn create_program_address(seeds: &Vec<Vec<u8>>, program: &Identity) -> (address: Option<
    Identity,
>)
    ensures
        address_bytes(address) == program_address(seeds.deep_view(), program@),
{
    let slices: Vec<&[u8]> = seeds.iter().map(|seed| seed.as_slice()).collect();
    match Pubkey::create_program_address(&slices, &Pubkey::new_from_array(program.bytes)) {
        Ok(address) => Some(Identity { bytes: address.to_bytes() }),
        Err(_) => None,
    }
}

/// Calls `Pubkey::try_find_program_address` on the seeds and the program. The
/// search tries each bump in a fixed order, so the outcome is a function of the
/// arguments alone.
#[verifier::external_body]
pub(crate) fn try_find_program_address(seeds: &Vec<Vec<u8>>, program: &Identity) -> (found: Option<
    (Identity, u8),
>)
    ensures
        found_bytes(found) == found_program_address(seeds.deep_view(), program@),
{
    let slices: Vec<&[u8]> = seeds.iter().map(|seed| seed.as_slice()).collect();
    match Pubkey::try_find_program_address(&slices, &Pubkey::new_from_array(program.bytes)) {
        Some((address, bump)) => Some((Identity { bytes: address.to_bytes() }, bump)),
        None => None,
    }
}

} // verus!
