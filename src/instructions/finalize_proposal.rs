use vstd::prelude::*;
use crate::error::ErrorCode;
use crate::state::proposal::{Proposal, STATUS_APPROVED, STATUS_REJECTED};

verus! {

/// Decides a proposal at time `now`, once its voting window has closed or
/// its milestone is reached. Fewer votes than the quorum (a tenth of its
/// tokens) reject it; otherwise it is approved when yes holds at least 51
/// percent of the votes (rounded down), and rejected if not. Only the status
/// changes. An early call is refused with `VotingStillActive`; a proposal
/// without a single vote and with a quorum of zero has no majority to
/// compute and is refused with `Overflow`. On an error nothing changes.
pub fn finalize_proposal_handler(proposal: &mut Proposal, now: i64) -> (r: Result<(), ErrorCode>)
    ensures
        !old(proposal).may_finalize_at(now as int) ==> r == Err::<(), ErrorCode>(ErrorCode::VotingStillActive),
        old(proposal).may_finalize_at(now as int) && old(proposal).total_votes() == 0
            && old(proposal).number_of_tokens < 10 ==> r == Err::<(), ErrorCode>(ErrorCode::Overflow),
        old(proposal).may_finalize_at(now as int) && !(old(proposal).total_votes() == 0
            && old(proposal).number_of_tokens < 10) ==> {
            &&& r is Ok
            &&& *final(proposal) == (Proposal { status: old(proposal).outcome(), ..*old(proposal) })
        },
        r is Err ==> *final(proposal) == *old(proposal),
{
    if !(now >= proposal.end_date || proposal.milestone_reached) {
        return Err(ErrorCode::VotingStillActive);
    }
    let total_votes: u128 = proposal.yes_votes as u128 + proposal.no_votes as u128;
    // A tenth of the tokens must take part.
    let quorum: u64 = proposal.number_of_tokens / 10;
    if total_votes < quorum as u128 {
        proposal.status = STATUS_REJECTED;
        return Ok(());
    }
    if total_votes == 0 {
        return Err(ErrorCode::Overflow);
    }
    let share: u128 = proposal.yes_votes as u128 * 100 / total_votes;
    proposal.status = if share >= 51 {
        STATUS_APPROVED
    } else {
        STATUS_REJECTED
    };
    Ok(())
}

} // verus!
