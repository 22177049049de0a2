//! Properties of the governance rules that hold across calls.

use vstd::prelude::*;
use crate::error::ErrorCode;
use crate::instructions::vote_on_proposal::vote_on_proposal_error;
use crate::pubkey::Pubkey;
use crate::state::proposal::{quorum, Proposal, STATUS_APPROVED};
use crate::state::token_account::TokenAccount;
use crate::state::vote::Vote;

verus! {

/// No double voting: a ballot account that already names a voter refuses
/// every further token-weighted ballot, whoever casts it and whenever.
pub proof fn lemma_ballot_account_used_once(
    proposal: Proposal,
    vote: Vote,
    voter: Pubkey,
    holding: TokenAccount,
    token_mint: Pubkey,
    now: i64,
)
    requires
        vote.is_cast(),
    ensures
        vote_on_proposal_error(proposal, vote, voter, holding, token_mint, now) is Some,
        proposal.start_date <= now <= proposal.end_date ==> vote_on_proposal_error(
            proposal,
            vote,
            voter,
            holding,
            token_mint,
            now,
        ) == Some(ErrorCode::AlreadyVoted),
{
}

/// An approved outcome has met the quorum, and yes holds at least 51
/// percent of the votes cast.
pub proof fn lemma_approval_needs_quorum_and_majority(proposal: Proposal)
    requires
        proposal.total_votes() > 0,
        proposal.outcome() == STATUS_APPROVED,
    ensures
        proposal.total_votes() >= quorum(proposal.number_of_tokens as int),
        proposal.yes_votes * 100 >= 51 * proposal.total_votes(),
{
    let yes = proposal.yes_votes as int;
    let total = proposal.total_votes();
    assert(yes * 100 / total >= 51);
    assert(yes * 100 >= 51 * total) by (nonlinear_arith)
        requires
            yes * 100 / total >= 51,
            total > 0,
    {
        assert(yes * 100 >= (yes * 100 / total) * total);
        assert((yes * 100 / total) * total >= 51 * total);
    }
}

/// Time-boxed phases: once finalization has decided a proposal, it accepts
/// no further votes at any time.
pub proof fn lemma_decided_proposal_is_closed(proposal: Proposal, now: int)
    ensures
        !(Proposal { status: proposal.outcome(), ..proposal }).accepts_votes_at(now),
{
}

} // verus!
