//! Verified core of an artist-tokenization and governance program: the
//! account records, the instruction rules that fill and update them, and the
//! proposal life cycle (creation, token-weighted voting, finalization by
//! quorum and majority, release of the collected funds).

pub mod pubkey;
pub mod error;
pub mod state;
pub mod instructions;
pub mod pda;
pub mod mostro;
pub mod laws;
