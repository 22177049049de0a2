use vstd::prelude::*;
use crate::error::ErrorCode;
use crate::pubkey::Pubkey;
use crate::state::proposal::{early_approval, Proposal, STATUS_ACTIVE, STATUS_APPROVED};
use crate::state::vote::Vote;

verus! {

/// Records `voter`'s ballot, one vote yes or no, on the proposal at address
/// `proposal_key` at time `now`, strictly before its end date. A proposal
/// past its milestone whose yes votes exceed half of its tokens is approved
/// at once and closes at `now`. A closed proposal is refused with
/// `VotingEnded`, a tally that would overflow with `Overflow`; then nothing
/// changes. The ballot's weight is left as it was.
pub fn create_vote_handler(
    vote: &mut Vote,
    proposal: &mut Proposal,
    proposal_key: Pubkey,
    voter: Pubkey,
    now: i64,
    approve: bool,
) -> (r: Result<(), ErrorCode>)
    ensures
        !(now < old(proposal).end_date && old(proposal).status == STATUS_ACTIVE)
            ==> r == Err::<(), ErrorCode>(ErrorCode::VotingEnded),
        now < old(proposal).end_date && old(proposal).status == STATUS_ACTIVE ==> {
            let yes = if approve { old(proposal).yes_votes + 1 } else { old(proposal).yes_votes as int };
            let no = if approve { old(proposal).no_votes as int } else { old(proposal).no_votes + 1 };
            if yes > u64::MAX || no > u64::MAX {
                r == Err::<(), ErrorCode>(ErrorCode::Overflow)
            } else {
                &&& r is Ok
                &&& *final(vote) == (Vote {
                    voter,
                    proposal: proposal_key,
                    vote_yes: approve,
                    token_weight: old(vote).token_weight,
                })
                &&& final(proposal).yes_votes == yes
                &&& final(proposal).no_votes == no
                &&& if early_approval(old(proposal).milestone_reached, yes, old(proposal).number_of_tokens as int) {
                    final(proposal).status == STATUS_APPROVED && final(proposal).end_date == now
                } else {
                    final(proposal).status == STATUS_ACTIVE && final(proposal).end_date == old(proposal).end_date
                }
                &&& final(proposal).same_but_tallies(*old(proposal))
            }
        },
        r is Err ==> *final(proposal) == *old(proposal) && *final(vote) == *old(vote),
{
    if !(now < proposal.end_date && proposal.status == STATUS_ACTIVE) {
        return Err(ErrorCode::VotingEnded);
    }
    if approve {
        proposal.yes_votes = match proposal.yes_votes.checked_add(1) {
            Some(v) => v,
            None => return Err(ErrorCode::Overflow),
        };
    } else {
        proposal.no_votes = match proposal.no_votes.checked_add(1) {
            Some(v) => v,
            None => return Err(ErrorCode::Overflow),
        };
    }
    vote.voter = voter;
    vote.proposal = proposal_key;
    vote.vote_yes = approve;

    if proposal.milestone_reached && proposal.yes_votes > proposal.number_of_tokens / 2 {
        proposal.status = STATUS_APPROVED;
        proposal.end_date = now;
    }
    Ok(())
}

} // verus!
