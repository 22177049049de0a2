use vstd::prelude::*;
use crate::error::ErrorCode;
use crate::pubkey::Pubkey;
use crate::state::proposal::{Proposal, STATUS_ACTIVE, VOTING_PERIOD};

verus! {

/// A new proposal by `creator` for the artist at address `artist`, opened at
/// time `now` for the standard voting period, with empty tallies and no
/// funds. An end date past the largest timestamp is refused with `Overflow`.
pub fn create_proposal_handler(
    artist: Pubkey,
    creator: Pubkey,
    title: String,
    description: String,
    number_of_tokens: u64,
    milestone_reached: bool,
    early_access: bool,
    bump: u8,
    now: i64,
) -> (r: Result<Proposal, ErrorCode>)
    ensures
        now + VOTING_PERIOD > i64::MAX ==> r == Err::<Proposal, ErrorCode>(ErrorCode::Overflow),
        now + VOTING_PERIOD <= i64::MAX ==> r == Ok::<Proposal, ErrorCode>(
            Proposal {
                artist,
                creator,
                title,
                description,
                number_of_tokens,
                yes_votes: 0,
                no_votes: 0,
                start_date: now,
                end_date: (now + VOTING_PERIOD) as i64,
                status: STATUS_ACTIVE,
                milestone_reached,
                early_access,
                usdc_collected: 0,
                artist_tokens_sold: 0,
                bump,
            },
        ),
{
    let end_date = match now.checked_add(VOTING_PERIOD) {
        Some(e) => e,
        None => return Err(ErrorCode::Overflow),
    };
    Ok(
        Proposal {
            artist,
            creator,
            title,
            description,
            number_of_tokens,
            yes_votes: 0,
            no_votes: 0,
            start_date: now,
            end_date,
            status: STATUS_ACTIVE,
            milestone_reached,
            early_access,
            usdc_collected: 0,
            artist_tokens_sold: 0,
            bump,
        },
    )
}

} // verus!
