use vstd::prelude::*;
use crate::error::ErrorCode;
use crate::state::proposal::{Proposal, STATUS_APPROVED, STATUS_REJECTED};

verus! {

/// Settles a finalized proposal: returns the USDC it collected, which goes
/// to the artist's wallet, and clears its collected and sold counters so the
/// funds cannot be paid twice. An approved proposal short of its milestone
/// is converted at `artist_token_price` per token, so a zero price there is
/// refused with `Overflow`. A proposal not yet finalized is refused with
/// `ProposalNotFinalized`. On an error nothing changes.
pub fn release_tokens_handler(proposal: &mut Proposal, artist_token_price: u64) -> (r: Result<u64, ErrorCode>)
    ensures
        !old(proposal).is_finalized() ==> r == Err::<u64, ErrorCode>(ErrorCode::ProposalNotFinalized),
        old(proposal).status == STATUS_APPROVED && !old(proposal).milestone_reached
            && artist_token_price == 0 ==> r == Err::<u64, ErrorCode>(ErrorCode::Overflow),
        old(proposal).is_finalized() && !(old(proposal).status == STATUS_APPROVED
            && !old(proposal).milestone_reached && artist_token_price == 0) ==> {
            &&& r == Ok::<u64, ErrorCode>(old(proposal).usdc_collected)
            &&& *final(proposal) == (Proposal { usdc_collected: 0, artist_tokens_sold: 0, ..*old(proposal) })
        },
        r is Err ==> *final(proposal) == *old(proposal),
{
    if proposal.status == STATUS_APPROVED {
        if !proposal.milestone_reached && artist_token_price == 0 {
            // The collected funds cannot be converted to tokens at no price.
            return Err(ErrorCode::Overflow);
        }
    } else if proposal.status != STATUS_REJECTED {
        return Err(ErrorCode::ProposalNotFinalized);
    }
    let released = proposal.usdc_collected;
    proposal.usdc_collected = 0;
    proposal.artist_tokens_sold = 0;
    Ok(released)
}

} // verus!
