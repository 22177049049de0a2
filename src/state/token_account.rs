use vstd::prelude::*;
use crate::pubkey::Pubkey;

verus! {

/// What the program reads of a token account: which mint it holds, who owns
/// it, and its balance.
#[derive(Clone, Copy, Debug)]
pub struct TokenAccount {
    pub mint: Pubkey,
    pub owner: Pubkey,
    pub amount: u64,
}

} // verus!
