//! Program-derived account addresses.

use vstd::prelude::*;
use crate::pubkey::Pubkey;

verus! {

/// The address and bump seed derived from `seeds` under `program_id`, or
/// `None` where none can be derived.
pub uninterp spec fn program_address_of(seeds: Seq<Seq<u8>>, program_id: Seq<u8>) -> Option<(Seq<u8>, u8)>;

/// The bytes of each seed.
pub open spec fn seed_bytes(seeds: Seq<&[u8]>) -> Seq<Seq<u8>> {
    seeds.map_values(|s: &[u8]| s@)
}

/// Relies on `Pubkey::try_find_program_address` of solana-pubkey: its
/// result depends on the seeds and the program id alone, and it finds no
/// address when a seed is longer than 32 bytes (`MAX_SEED_LEN`).
#[verifier::external_body]
pub(crate) fn try_find_program_address(seeds: &[&[u8]], program_id: &Pubkey) -> (r: Option<(Pubkey, u8)>)
    ensures
        r is Some <==> program_address_of(seed_bytes(seeds@), program_id@) is Some,
        r matches Some((k, b)) ==> program_address_of(seed_bytes(seeds@), program_id@) == Some((k@, b)),
        (exists|i: int| 0 <= i < seeds@.len() && #[trigger] seeds@[i]@.len() > 32) ==> r is None,
{
    let id = anchor_lang::prelude::Pubkey::new_from_array(program_id.bytes);
    match anchor_lang::prelude::Pubkey::try_find_program_address(seeds, &id) {
        Some((k, b)) => Some((Pubkey { bytes: k.to_bytes() }, b)),
        None => None,
    }
}

} // verus!
