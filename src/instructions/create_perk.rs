use vstd::prelude::*;
use crate::pubkey::Pubkey;
use crate::state::perk::Perk;

verus! {

/// A perk offered by the artist at address `artist`, at the two given
/// prices.
pub fn create_perk(
    artist: Pubkey,
    title: String,
    description: String,
    price_in_usdc: u64,
    price_in_tokens: u64,
) -> (r: Perk)
    ensures
        r == (Perk { artist, title, description, price_in_usdc, price_in_tokens }),
{
    Perk { artist, title, description, price_in_usdc, price_in_tokens }
}

} // verus!
