use vstd::prelude::*;
use crate::pubkey::Pubkey;

verus! {

/// One voter's ballot on one proposal.
#[derive(Clone, Copy, Debug)]
pub struct Vote {
    pub voter: Pubkey,
    pub proposal: Pubkey,
    pub vote_yes: bool,
    pub token_weight: u64,
}

impl Vote {
    /// Bytes reserved for the account: discriminator, two addresses, the
    /// choice and the weight.
    pub fn space() -> (r: usize)
        ensures
            r == 8 + 32 + 32 + 1 + 8,
    {
        8 + 32 + 32 + 1 + 8
    }

    /// A freshly allocated ballot account: every field zero.
    pub fn empty() -> (r: Vote)
        ensures
            r.voter.is_zero(),
            r.proposal.is_zero(),
            !r.vote_yes,
            r.token_weight == 0,
    {
        Vote { voter: Pubkey::zero(), proposal: Pubkey::zero(), vote_yes: false, token_weight: 0 }
    }

    /// A ballot has been cast into this account once its voter is set.
    pub open spec fn is_cast(&self) -> bool {
        !self.voter.is_zero()
    }
}

} // verus!
