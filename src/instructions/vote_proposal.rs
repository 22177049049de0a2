use vstd::prelude::*;
use crate::error::ErrorCode;
use crate::state::proposal::{early_approval, Proposal, STATUS_ACTIVE, STATUS_APPROVED};

verus! {

/// Adds a ballot of `voter_token_balance` tokens, yes or no, to an open
/// proposal at time `now`. Once a proposal past its milestone has more yes
/// than half of its tokens, it is approved at once and its voting window
/// closes at `now`. A closed proposal is refused with `VotingEnded`, a tally
/// that would overflow with `Overflow`; then nothing changes. That each
/// voter votes once is kept by the account that records the ballot.
pub fn vote_proposal_handler(
    proposal: &mut Proposal,
    now: i64,
    vote_yes: bool,
    voter_token_balance: u64,
) -> (r: Result<(), ErrorCode>)
    ensures
        !old(proposal).accepts_votes_at(now as int) ==> r == Err::<(), ErrorCode>(ErrorCode::VotingEnded),
        old(proposal).accepts_votes_at(now as int) ==> {
            let yes = if vote_yes { old(proposal).yes_votes + voter_token_balance } else { old(proposal).yes_votes as int };
            let no = if vote_yes { old(proposal).no_votes as int } else { old(proposal).no_votes + voter_token_balance };
            if yes > u64::MAX || no > u64::MAX {
                r == Err::<(), ErrorCode>(ErrorCode::Overflow)
            } else {
                &&& r is Ok
                &&& final(proposal).yes_votes == yes
                &&& final(proposal).no_votes == no
                &&& if early_approval(old(proposal).milestone_reached, yes, old(proposal).number_of_tokens as int) {
                    final(proposal).status == STATUS_APPROVED && final(proposal).end_date == now
                } else {
                    final(proposal).status == STATUS_ACTIVE && final(proposal).end_date == old(proposal).end_date
                }
                &&& final(proposal).same_but_tallies(*old(proposal))
            }
        },
        r is Err ==> *final(proposal) == *old(proposal),
{
    if !(now <= proposal.end_date && proposal.status == STATUS_ACTIVE) {
        return Err(ErrorCode::VotingEnded);
    }
    if vote_yes {
        proposal.yes_votes = match proposal.yes_votes.checked_add(voter_token_balance) {
            Some(v) => v,
            None => return Err(ErrorCode::Overflow),
        };
    } else {
        proposal.no_votes = match proposal.no_votes.checked_add(voter_token_balance) {
            Some(v) => v,
            None => return Err(ErrorCode::Overflow),
        };
    }
    if proposal.milestone_reached && proposal.yes_votes > proposal.number_of_tokens / 2 {
        proposal.status = STATUS_APPROVED;
        proposal.end_date = now;
    }
    Ok(())
}

} // verus!
