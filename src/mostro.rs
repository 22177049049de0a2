//! Records of the earlier layout of the program, with a bonding curve.

use vstd::prelude::*;
use crate::pubkey::Pubkey;

verus! {

/// Platform settings with a bonding-curve share and a migration threshold.
#[derive(Clone, Copy, Debug)]
pub struct Config {
    pub percentage_bonding_curve: u8,
    pub percentage_artist: u8,
    pub percentage_mostro: u8,
    pub admin: Pubkey,
    pub number_of_sol_to_migrate: u64,
    pub bump: u8,
}

/// A proposal numbered per artist, with its total voting power.
#[derive(Clone, Debug)]
pub struct Proposal {
    pub artist: Pubkey,
    pub proposal_id: u64,
    pub title: String,
    pub number_of_tokens: u64,
    pub start_date: i64,
    pub end_date: i64,
    pub status: u8,
    pub yes_votes: u64,
    pub no_votes: u64,
    pub total_voting_power: u64,
    pub bump: u8,
}

} // verus!
