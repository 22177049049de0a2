use vstd::prelude::*;
use crate::pubkey::Pubkey;

verus! {

/// Title and duration of an artist's latest release.
#[derive(Clone, Debug)]
pub struct LatestSingle {
    pub title: String,
    pub duration: String,
}

/// An artist and the token that represents them.
#[derive(Clone, Debug)]
pub struct Artist {
    pub name: String,
    pub image: String,
    pub latest_single: LatestSingle,
    pub total_tokens: u64,
    pub campaign_tokens_sold: u64,
    pub mint: Pubkey,
}

impl Artist {
    /// Bytes reserved for the account: discriminator, name (50), image URL
    /// (200), single title (50) and duration (10), each with a length
    /// prefix, two counters and the mint.
    pub fn space() -> (r: usize)
        ensures
            r == 8 + (4 + 50) + (4 + 200) + (4 + 50 + 4 + 10) + (8 + 8) + 32,
    {
        8 + (4 + 50) + (4 + 200) + (4 + 50 + 4 + 10) + (8 + 8) + 32
    }
}

} // verus!
