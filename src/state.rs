//! On-chain account records and their serialized sizes.

pub mod artist;
pub mod config;
pub mod perk;
pub mod proposal;
pub mod vote;
pub mod token_account;
