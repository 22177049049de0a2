use vstd::prelude::*;
use crate::pubkey::Pubkey;

verus! {

/// Something an artist offers for sale, priced in USDC and in artist tokens.
#[derive(Clone, Debug)]
pub struct Perk {
    pub artist: Pubkey,
    pub title: String,
    pub description: String,
    pub price_in_usdc: u64,
    pub price_in_tokens: u64,
}

/// Longest title a perk account has room for, in bytes.
pub const PERK_MAX_TITLE_LEN: usize = 100;

/// Longest description a perk account has room for, in bytes.
pub const PERK_MAX_DESCRIPTION_LEN: usize = 500;

impl Perk {
    /// Bytes of the account's data after its discriminator: the artist, the
    /// two strings at their largest with their length prefixes, two prices.
    pub fn init_space() -> (r: usize)
        ensures
            r == 32 + (4 + PERK_MAX_TITLE_LEN) + (4 + PERK_MAX_DESCRIPTION_LEN) + 8 + 8,
    {
        32 + (4 + PERK_MAX_TITLE_LEN) + (4 + PERK_MAX_DESCRIPTION_LEN) + 8 + 8
    }
}

} // verus!
