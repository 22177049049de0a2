//! The program's instructions: each checks its inputs against the accounts
//! it is given and returns the new or updated records.

pub mod vote_on_proposal;
pub mod buy_tokens_for_proposal;
pub mod create_vote;
pub mod vote_proposal;
pub mod finalize_proposal;
pub mod create_proposal;
pub mod release_tokens;
pub mod create_config;
pub mod create_perk;
pub mod buy_perks;
pub mod create_artist;
