use vstd::prelude::*;
use crate::error::ErrorCode;
use crate::pubkey::Pubkey;
use crate::state::proposal::Proposal;
use crate::state::token_account::TokenAccount;
use crate::state::vote::Vote;

verus! {

/// `a + b`, held at `u64::MAX`.
pub open spec fn saturating_sum(a: u64, b: u64) -> u64 {
    if a + b > u64::MAX {
        u64::MAX
    } else {
        (a + b) as u64
    }
}

/// The first check that a token-weighted ballot fails, if any: the voting
/// window, a ballot already cast, the token account's mint and owner, and a
/// nonzero balance.
pub open spec fn vote_on_proposal_error(
    proposal: Proposal,
    vote: Vote,
    voter: Pubkey,
    holding: TokenAccount,
    token_mint: Pubkey,
    now: i64,
) -> Option<ErrorCode> {
    if now < proposal.start_date {
        Some(ErrorCode::ProposalNotActive)
    } else if now > proposal.end_date {
        Some(ErrorCode::ProposalExpired)
    } else if vote.is_cast() {
        Some(ErrorCode::AlreadyVoted)
    } else if holding.mint@ != token_mint@ {
        Some(ErrorCode::Unauthorized)
    } else if holding.owner@ != voter@ {
        Some(ErrorCode::Unauthorized)
    } else if holding.amount == 0 {
        Some(ErrorCode::NoVotingPower)
    } else {
        None
    }
}

/// Casts `voter`'s ballot on the proposal at address `proposal_key`,
/// weighted by the balance of the voter's token account of `token_mint`.
/// The ballot is recorded in `vote`, and its weight is added (held at
/// `u64::MAX`) to the chosen tally. On an error nothing changes.
pub fn vote_on_proposal_handler(
    proposal: &mut Proposal,
    proposal_key: Pubkey,
    vote: &mut Vote,
    voter: Pubkey,
    voter_token_account: &TokenAccount,
    token_mint: Pubkey,
    now: i64,
    vote_choice: bool,
) -> (r: Result<(), ErrorCode>)
    ensures
        match vote_on_proposal_error(*old(proposal), *old(vote), voter, *voter_token_account, token_mint, now) {
            Some(e) => r == Err::<(), ErrorCode>(e) && *final(proposal) == *old(proposal) && *final(vote) == *old(vote),
            None => {
                &&& r is Ok
                &&& final(vote).voter == voter
                &&& final(vote).proposal == proposal_key
                &&& final(vote).vote_yes == vote_choice
                &&& final(vote).token_weight == voter_token_account.amount
                &&& final(proposal).yes_votes == if vote_choice {
                    saturating_sum(old(proposal).yes_votes, voter_token_account.amount)
                } else {
                    old(proposal).yes_votes
                }
                &&& final(proposal).no_votes == if vote_choice {
                    old(proposal).no_votes
                } else {
                    saturating_sum(old(proposal).no_votes, voter_token_account.amount)
                }
                &&& final(proposal).status == old(proposal).status
                &&& final(proposal).end_date == old(proposal).end_date
                &&& final(proposal).same_but_tallies(*old(proposal))
            },
        },
{
    if now < proposal.start_date {
        return Err(ErrorCode::ProposalNotActive);
    }
    if now > proposal.end_date {
        return Err(ErrorCode::ProposalExpired);
    }
    // A ballot account that already names a voter has been used.
    if vote.voter != Pubkey::zero() {
        return Err(ErrorCode::AlreadyVoted);
    }
    if voter_token_account.mint != token_mint {
        return Err(ErrorCode::Unauthorized);
    }
    if voter_token_account.owner != voter {
        return Err(ErrorCode::Unauthorized);
    }
    let voting_power = voter_token_account.amount;
    if voting_power == 0 {
        return Err(ErrorCode::NoVotingPower);
    }

    vote.proposal = proposal_key;
    vote.voter = voter;
    vote.vote_yes = vote_choice;
    vote.token_weight = voting_power;

    if vote_choice {
        proposal.yes_votes = proposal.yes_votes.saturating_add(voting_power);
    } else {
        proposal.no_votes = proposal.no_votes.saturating_add(voting_power);
    }
    Ok(())
}

} // verus!
