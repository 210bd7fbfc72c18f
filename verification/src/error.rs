//! The closed set of failures that a session reports.

use vstd::prelude::*;

verus! {

/// Why an operation on a session was refused. No failure is fatal: the
/// session is unchanged by a refused operation and stays usable.
#[derive(Clone, Copy, Debug, PartialEq, Eq, Structural)]
pub enum VotingError {
    /// The session was started before.
    AlreadyActive,
    /// A proposal was offered after the session had started.
    SessionAlreadyActive,
    /// A title, description or name was empty.
    InvalidInput,
    /// No proposal has the given identifier.
    ProposalNotFound,
    /// No voter has the given identifier.
    NotARegisteredVoter,
    /// The voter has fewer credits left than the vote would spend.
    InsufficientCredits,
    /// The vote would spend no credits, or a negative number of them.
    NonPositiveCredits,
    /// The voter has voted on the proposal before.
    AlreadyVoted,
    /// The voter has not voted on the proposal.
    VoteNotFound,
}

impl VotingError {
    /// The text of the message that belongs to each failure.
    pub open spec fn text(self) -> Seq<char> {
        match self {
            VotingError::AlreadyActive => "Session is already active"@,
            VotingError::SessionAlreadyActive => "Cannot add proposal after session has started"@,
            VotingError::InvalidInput => "Title, description and name cannot be empty"@,
            VotingError::ProposalNotFound => "Proposal not found"@,
            VotingError::NotARegisteredVoter => "You are not a voter"@,
            VotingError::InsufficientCredits => "You don't have enough credits to vote"@,
            VotingError::NonPositiveCredits => "You cannot vote with zero credits"@,
            VotingError::AlreadyVoted => "You have already voted"@,
            VotingError::VoteNotFound => "No such vote was cast"@,
        }
    }

    /// A message for a human reader.
    pub fn message(&self) -> (s: &'static str)
        ensures
            s@ == self.text(),
    {
        match self {
            VotingError::AlreadyActive => "Session is already active",
            VotingError::SessionAlreadyActive => "Cannot add proposal after session has started",
            VotingError::InvalidInput => "Title, description and name cannot be empty",
            VotingError::ProposalNotFound => "Proposal not found",
            VotingError::NotARegisteredVoter => "You are not a voter",
            VotingError::InsufficientCredits => "You don't have enough credits to vote",
            VotingError::NonPositiveCredits => "You cannot vote with zero credits",
            VotingError::AlreadyVoted => "You have already voted",
            VotingError::VoteNotFound => "No such vote was cast",
        }
    }
}

} // verus!
