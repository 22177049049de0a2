use vstd::prelude::*;
use crate::pubkey::Pubkey;

verus! {

/// Status of a proposal that is still open for votes.
pub const STATUS_ACTIVE: u8 = 0;

/// Status of a proposal that passed.
pub const STATUS_APPROVED: u8 = 1;

/// Status of a proposal that failed.
pub const STATUS_REJECTED: u8 = 2;

/// How long voting stays open after creation, in seconds (ten days).
pub const VOTING_PERIOD: i64 = 10 * 24 * 60 * 60;

/// A governance proposal on an artist's token allocation, with its tallies,
/// its voting window and the funds raised for it.
#[derive(Clone, Debug)]
pub struct Proposal {
    pub artist: Pubkey,
    pub creator: Pubkey,
    pub title: String,
    pub description: String,
    pub number_of_tokens: u64,
    pub yes_votes: u64,
    pub no_votes: u64,
    pub start_date: i64,
    pub end_date: i64,
    pub status: u8,
    pub milestone_reached: bool,
    pub early_access: bool,
    pub usdc_collected: u64,
    pub artist_tokens_sold: u64,
    pub bump: u8,
}

/// The least participation a proposal needs: a tenth of its tokens.
pub open spec fn quorum(number_of_tokens: int) -> int {
    number_of_tokens / 10
}

/// Yes holds at least 51 percent of the votes cast (rounded down).
pub open spec fn majority_approves(yes: int, total: int) -> bool {
    yes * 100 / total >= 51
}

/// A proposal past its milestone passes at once when yes outweighs half of
/// its tokens.
pub open spec fn early_approval(milestone_reached: bool, yes: int, number_of_tokens: int) -> bool {
    milestone_reached && yes > number_of_tokens / 2
}

impl Proposal {
    /// Bytes reserved for the account: discriminator, two addresses, title
    /// (100) and description (500) with length prefixes, three counters,
    /// two dates, status, two flags, two more counters and the bump.
    pub fn space() -> (r: usize)
        ensures
            r == 8 + 32 + 32 + (4 + 100) + (4 + 500) + (8 + 8 + 8) + (8 + 8) + 1 + (1 + 1) + (8
                + 8) + 1,
    {
        8 + 32 + 32 + (4 + 100) + (4 + 500) + (8 + 8 + 8) + (8 + 8) + 1 + (1 + 1) + (8 + 8) + 1
    }

    /// Votes cast so far, yes and no together.
    pub open spec fn total_votes(&self) -> int {
        self.yes_votes + self.no_votes
    }

    /// Still open for votes at time `now`.
    pub open spec fn accepts_votes_at(&self, now: int) -> bool {
        now <= self.end_date && self.status == STATUS_ACTIVE
    }

    /// Voting is over at time `now`, or the milestone lets it close early.
    pub open spec fn may_finalize_at(&self, now: int) -> bool {
        now >= self.end_date || self.milestone_reached
    }

    /// The outcome of finalization, once there is at least one vote or the
    /// quorum is unmet.
    pub open spec fn outcome(&self) -> u8 {
        if self.total_votes() < quorum(self.number_of_tokens as int) {
            STATUS_REJECTED
        } else if majority_approves(self.yes_votes as int, self.total_votes()) {
            STATUS_APPROVED
        } else {
            STATUS_REJECTED
        }
    }

    /// Finalization has decided the proposal.
    pub open spec fn is_finalized(&self) -> bool {
        self.status == STATUS_APPROVED || self.status == STATUS_REJECTED
    }

    /// The same proposal with only its status, end date and tallies changed.
    pub open spec fn same_but_tallies(&self, o: Proposal) -> bool {
        &&& self.artist == o.artist
        &&& self.creator == o.creator
        &&& self.title == o.title
        &&& self.description == o.description
        &&& self.number_of_tokens == o.number_of_tokens
        &&& self.start_date == o.start_date
        &&& self.milestone_reached == o.milestone_reached
        &&& self.early_access == o.early_access
        &&& self.usdc_collected == o.usdc_collected
        &&& self.artist_tokens_sold == o.artist_tokens_sold
        &&& self.bump == o.bump
    }
}

} // verus!
