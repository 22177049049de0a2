use vstd::prelude::*;

verus! {

/// Every way an instruction of the program can be refused.
#[derive(Clone, Copy, Debug, PartialEq, Eq, Structural)]
pub enum ErrorCode {
    UnauthorizedAdmin,
    Unauthorized,
    InvalidPercentage,
    AlreadyVoted,
    InsufficientTokens,
    InsufficientSol,
    ProposalNotApproved,
    ProposalAlreadyExecuted,
    InvalidTokenAmount,
    InvalidSolAmount,
    NoVotingPower,
    VotingEnded,
    Overflow,
    VotingStillActive,
    InvalidInstructionData,
    InvalidArtist,
    ProposalNotFinalized,
    ProposalNotActive,
    ProposalExpired,
}

impl ErrorCode {
    /// The message shown to a client for this error.
    pub fn msg(&self) -> &'static str {
        match self {
            ErrorCode::UnauthorizedAdmin => "Only the admin can perform this action.",
            ErrorCode::Unauthorized => "Unauthorized access",
            ErrorCode::InvalidPercentage => "Percentages must sum to 100",
            ErrorCode::AlreadyVoted => "User has already voted on this proposal",
            ErrorCode::InsufficientTokens => "Insufficient tokens for operation",
            ErrorCode::InsufficientSol => "Insufficient SOL for operation",
            ErrorCode::ProposalNotApproved => "Proposal was not approved",
            ErrorCode::ProposalAlreadyExecuted => "Proposal has already been executed",
            ErrorCode::InvalidTokenAmount => "Invalid token amount",
            ErrorCode::InvalidSolAmount => "Invalid SOL amount",
            ErrorCode::NoVotingPower => "No voting power (no tokens held)",
            ErrorCode::VotingEnded => "Voting period has already ended.",
            ErrorCode::Overflow => "Arithmetic overflow occurred.",
            ErrorCode::VotingStillActive => "Voting period is still active.",
            ErrorCode::InvalidInstructionData => "Invalid instruction data.",
            ErrorCode::InvalidArtist => "Invalid artist for this proposal.",
            ErrorCode::ProposalNotFinalized => "Proposal has not been finalized yet.",
            ErrorCode::ProposalNotActive => "Voting period has not started yet.",
            ErrorCode::ProposalExpired => "Voting period has expired.",
        }
    }
}

} // verus!
