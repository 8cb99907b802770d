//! The two computations this library leaves to `solana_program`: decoding a
//! base58 address and deriving a program address. Nothing in this file is
//! proved; every other module builds on the contracts stated here.

use vstd::prelude::*;
use std::str::FromStr;
use solana_program::pubkey::Pubkey;

verus! {

/// What `Pubkey::from_str` makes of `text`: the 32 bytes it decodes to, or
/// `None` where it reports an error.
pub uninterp spec fn decoded_pubkey(text: Seq<char>) -> Option<Seq<u8>>;

/// What `Pubkey::try_find_program_address` finds for `seeds` under
/// `program_id`: the derived address and its bump seed, or `None` where no
/// bump seed yields an address.
pub uninterp spec fn found_program_address(seeds: Seq<Seq<u8>>, program_id: Seq<u8>) -> Option<
    (Seq<u8>, u8),
>;

/// Calls `Pubkey::from_str`, the base58 decoder of `solana_program`.
///
/// Trusted: the outcome depends on `text` alone. It is the key's 32 bytes
/// where the decoder accepts the text, and `None` where it reports either of
/// its errors (wrong size, invalid character); it reports one of these for
/// every text it does not accept.
#[verifier::external_body]
pub(crate) fn pubkey_from_str(text: &str) -> (decoded: Option<[u8; 32]>)
    ensures
        decoded matches Some(bytes) ==> decoded_pubkey(text@) == Some(bytes@),
        decoded is None ==> decoded_pubkey(text@) is None,
{
    match Pubkey::from_str(text) {
        Ok(key) => Some(key.to_bytes()),
        Err(_) => None,
    }
}

/// Calls `Pubkey::try_find_program_address` with four seeds.
///
/// Trusted: the outcome depends on the seeds, in their order, and on the
/// program id alone. It is the address and bump seed that the search settles
/// on, and `None` where the search ends without one.
#[verifier::external_body]
pub(crate) fn try_find_program_address(
    seed0: &[u8],
    seed1: &[u8],
    seed2: &[u8],
    seed3: &[u8],
    program_id: &[u8; 32],
) -> (found: Option<([u8; 32], u8)>)
    ensures
        found matches Some((bytes, bump)) ==> found_program_address(
            seq![seed0@, seed1@, seed2@, seed3@],
            program_id@,
        ) == Some((bytes@, bump)),
        found is None ==> found_program_address(
            seq![seed0@, seed1@, seed2@, seed3@],
            program_id@,
        ) is None,
{
    let id = Pubkey::new_from_array(*program_id);
    match Pubkey::try_find_program_address(&[seed0, seed1, seed2, seed3], &id) {
        Some((key, bump)) => Some((key.to_bytes(), bump)),
        None => None,
    }
}

} // verus!
