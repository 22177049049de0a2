use vstd::prelude::*;
use crate::error::ErrorCode;
use crate::state::proposal::Proposal;

verus! {

/// Records a purchase of artist tokens with `amount_usdc` USDC at
/// `artist_tokens_price` USDC per token, and returns how many whole tokens
/// the buyer receives. The proposal's sold and collected counters grow by
/// the purchase; a campaign purchase also grants early access. A zero price
/// or a counter that would overflow is refused with `Overflow`, and then
/// nothing changes. Moving the USDC and the tokens is left to the caller.
pub fn buy_tokens_for_proposal_handler(
    proposal: &mut Proposal,
    amount_usdc: u64,
    artist_tokens_price: u64,
    is_campaign_purchase: bool,
) -> (r: Result<u64, ErrorCode>)
    ensures
        artist_tokens_price == 0 ==> r == Err::<u64, ErrorCode>(ErrorCode::Overflow),
        artist_tokens_price > 0 ==> {
            let bought = amount_usdc / artist_tokens_price;
            if old(proposal).artist_tokens_sold + bought > u64::MAX
                || old(proposal).usdc_collected + amount_usdc > u64::MAX {
                r == Err::<u64, ErrorCode>(ErrorCode::Overflow)
            } else {
                &&& r == Ok::<u64, ErrorCode>(bought)
                &&& final(proposal).artist_tokens_sold == old(proposal).artist_tokens_sold + bought
                &&& final(proposal).usdc_collected == old(proposal).usdc_collected + amount_usdc
                &&& final(proposal).early_access == (old(proposal).early_access || is_campaign_purchase)
                &&& (Proposal {
                    artist_tokens_sold: old(proposal).artist_tokens_sold,
                    usdc_collected: old(proposal).usdc_collected,
                    early_access: old(proposal).early_access,
                    ..*final(proposal)
                }) == *old(proposal)
            }
        },
        r is Err ==> *final(proposal) == *old(proposal),
{
    let tokens_bought = match amount_usdc.checked_div(artist_tokens_price) {
        Some(t) => t,
        None => return Err(ErrorCode::Overflow),
    };
    let sold = match proposal.artist_tokens_sold.checked_add(tokens_bought) {
        Some(s) => s,
        None => return Err(ErrorCode::Overflow),
    };
    let collected = match proposal.usdc_collected.checked_add(amount_usdc) {
        Some(c) => c,
        None => return Err(ErrorCode::Overflow),
    };
    proposal.artist_tokens_sold = sold;
    proposal.usdc_collected = collected;
    if is_campaign_purchase {
        proposal.early_access = true;
    }
    Ok(tokens_bought)
}

} // verus!
