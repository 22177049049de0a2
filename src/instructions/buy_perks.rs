use vstd::prelude::*;
use crate::state::perk::Perk;

verus! {

/// The USDC a buyer pays into the platform's vault for `perk`.
#[allow(non_snake_case)]
pub fn buy_perks_USDC(perk: &Perk) -> (r: u64)
    ensures
        r == perk.price_in_usdc,
{
    perk.price_in_usdc
}

/// The artist tokens a buyer pays into the artist's vault for `perk`.
pub fn buy_perks_artist_tokens(perk: &Perk) -> (r: u64)
    ensures
        r == perk.price_in_tokens,
{
    perk.price_in_tokens
}

} // verus!
