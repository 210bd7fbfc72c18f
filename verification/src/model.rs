//! The records of a session and their mathematical models.

use vstd::prelude::*;
use crate::error::VotingError;

verus! {

/// A number of votes: the square root of `credits`. It is kept as the number
/// under the root, so that it is exact.
#[derive(Clone, Copy, Debug, PartialEq, Eq, Structural)]
pub struct VoteCount {
    pub credits: i32,
}

/// The record that a voter spent credits on a proposal. It is never changed
/// or removed once it is made.
#[derive(Clone, Copy, Debug, PartialEq, Eq, Structural)]
pub struct Vote {
    pub voter_id: i32,
    pub proposal_id: i32,
    pub credits_spent: i32,
}

impl Vote {
    /// The votes that this record stands for: the square root of the credits
    /// spent.
    pub fn vote_count(&self) -> (count: VoteCount)
        ensures
            count == (VoteCount { credits: self.credits_spent }),
    {
        VoteCount { credits: self.credits_spent }
    }
}

/// A participant and the credits they have left.
#[derive(Debug)]
pub struct Voter {
    pub id: i32,
    pub name: String,
    pub credits: i32,
}

/// A votable option.
#[derive(Debug)]
pub struct Proposal {
    pub id: i32,
    pub title: String,
    pub description: String,
    /// The tally: the vote counts received, oldest first. The proposal's
    /// total is their sum, taken in this order.
    pub total_votes: Vec<VoteCount>,
    /// The identifiers of the voters who have voted on this proposal, oldest
    /// first.
    pub user_voted: Vec<i32>,
}

impl Proposal {
    /// Whether the voter has voted on this proposal.
    pub fn has_voted(&self, voter_id: i32) -> (voted: bool)
        ensures
            voted == self.user_voted@.contains(voter_id),
    {
        let mut i: usize = 0;
        while i < self.user_voted.len()
            invariant
                i <= self.user_voted.len(),
                forall|k: int| 0 <= k < i ==> self.user_voted@[k] != voter_id,
            decreases self.user_voted.len() - i,
        {
            if self.user_voted[i] == voter_id {
                return true;
            }
            i += 1;
        }
        false
    }
}

/// What a `Voter` is, as a value.
pub ghost struct VoterView {
    pub id: i32,
    pub name: Seq<char>,
    pub credits: i32,
}

/// What a `Proposal` is, as a value.
pub ghost struct ProposalView {
    pub id: i32,
    pub title: Seq<char>,
    pub description: Seq<char>,
    pub total_votes: Seq<VoteCount>,
    pub user_voted: Seq<i32>,
}

impl View for Voter {
    type V = VoterView;

    open spec fn view(&self) -> VoterView {
        VoterView { id: self.id, name: self.name@, credits: self.credits }
    }
}

impl View for Proposal {
    type V = ProposalView;

    open spec fn view(&self) -> ProposalView {
        ProposalView {
            id: self.id,
            title: self.title@,
            description: self.description@,
            total_votes: self.total_votes@,
            user_voted: self.user_voted@,
        }
    }
}

/// The vote of `voter_id` on `proposal_id` among `votes`, if there is one.
pub open spec fn recorded(votes: Seq<Vote>, voter_id: i32, proposal_id: i32) -> Option<Vote>
    decreases votes.len(),
{
    if votes.len() == 0 {
        None
    } else if votes.last().voter_id == voter_id && votes.last().proposal_id == proposal_id {
        Some(votes.last())
    } else {
        recorded(votes.drop_last(), voter_id, proposal_id)
    }
}

/// The credits that `voter_id` spent over all of `votes`.
pub open spec fn spent_by(votes: Seq<Vote>, voter_id: i32) -> int
    decreases votes.len(),
{
    if votes.len() == 0 {
        0
    } else if votes.last().voter_id == voter_id {
        spent_by(votes.drop_last(), voter_id) + votes.last().credits_spent
    } else {
        spent_by(votes.drop_last(), voter_id)
    }
}

/// The vote counts of those of `votes` that were cast on `proposal_id`, in
/// the order of `votes`.
pub open spec fn counts_on(votes: Seq<Vote>, proposal_id: i32) -> Seq<VoteCount>
    decreases votes.len(),
{
    if votes.len() == 0 {
        Seq::empty()
    } else if votes.last().proposal_id == proposal_id {
        counts_on(votes.drop_last(), proposal_id).push(
            VoteCount { credits: votes.last().credits_spent },
        )
    } else {
        counts_on(votes.drop_last(), proposal_id)
    }
}

/// The voters of those of `votes` that were cast on `proposal_id`, in the
/// order of `votes`.
pub open spec fn voters_on(votes: Seq<Vote>, proposal_id: i32) -> Seq<i32>
    decreases votes.len(),
{
    if votes.len() == 0 {
        Seq::empty()
    } else if votes.last().proposal_id == proposal_id {
        voters_on(votes.drop_last(), proposal_id).push(votes.last().voter_id)
    } else {
        voters_on(votes.drop_last(), proposal_id)
    }
}

/// What a session is, as a value.
pub ghost struct SessionView {
    pub total_credits: i32,
    pub proposals: Seq<ProposalView>,
    pub voters: Seq<VoterView>,
    pub next_voter_id: i32,
    pub next_proposal_id: i32,
    pub votes: Seq<Vote>,
    pub is_active: bool,
}

impl SessionView {
    /// A proposal has the identifier `id`.
    pub open spec fn has_proposal(self, id: i32) -> bool {
        1 <= id <= self.proposals.len()
    }

    /// A voter has the identifier `id`.
    pub open spec fn has_voter(self, id: i32) -> bool {
        1 <= id <= self.voters.len()
    }

    /// The proposal with the identifier `id`.
    pub open spec fn proposal(self, id: i32) -> ProposalView
        recommends
            self.has_proposal(id),
    {
        self.proposals[id - 1]
    }

    /// The voter with the identifier `id`.
    pub open spec fn voter(self, id: i32) -> VoterView
        recommends
            self.has_voter(id),
    {
        self.voters[id - 1]
    }

    /// Identifiers are handed out in order, from 1, and each counter holds
    /// the last one handed out.
    pub open spec fn identifiers_in_order(self) -> bool {
        &&& self.next_proposal_id == self.proposals.len()
        &&& self.next_voter_id == self.voters.len()
        &&& forall|i: int|
            0 <= i < self.proposals.len() ==> (#[trigger] self.proposals[i]).id == i + 1
        &&& forall|i: int| 0 <= i < self.voters.len() ==> (#[trigger] self.voters[i]).id == i + 1
    }

    /// No title, description or name is empty.
    pub open spec fn texts_filled(self) -> bool {
        &&& forall|i: int|
            0 <= i < self.proposals.len() ==> (#[trigger] self.proposals[i]).title.len() > 0
                && self.proposals[i].description.len() > 0
        &&& forall|i: int| 0 <= i < self.voters.len() ==> (#[trigger] self.voters[i]).name.len() > 0
    }

    /// Every vote spends a positive number of credits, of a voter and on a
    /// proposal that exist, and no voter has two votes on one proposal.
    pub open spec fn votes_sound(self) -> bool {
        &&& forall|i: int|
            0 <= i < self.votes.len() ==> {
                &&& (#[trigger] self.votes[i]).credits_spent > 0
                &&& self.has_voter(self.votes[i].voter_id)
                &&& self.has_proposal(self.votes[i].proposal_id)
            }
        &&& forall|i: int, j: int|
            0 <= i < j < self.votes.len() ==> !((#[trigger] self.votes[i]).voter_id == (
            #[trigger] self.votes[j]).voter_id && self.votes[i].proposal_id
                == self.votes[j].proposal_id)
    }

    /// Every voter's credits lie between nothing and the budget, and what is
    /// missing from the budget is what their votes spent.
    pub open spec fn ledger_balanced(self) -> bool {
        forall|i: int|
            0 <= i < self.voters.len() ==> {
                &&& 0 <= (#[trigger] self.voters[i]).credits <= self.total_credits
                &&& self.total_credits - self.voters[i].credits == spent_by(
                    self.votes,
                    self.voters[i].id,
                )
            }
    }

    /// Every proposal's tally holds the counts of the votes cast on it, and
    /// its list of voters those who cast them.
    pub open spec fn tallies_match(self) -> bool {
        forall|i: int|
            0 <= i < self.proposals.len() ==> {
                &&& (#[trigger] self.proposals[i]).total_votes == counts_on(
                    self.votes,
                    self.proposals[i].id,
                )
                &&& self.proposals[i].user_voted == voters_on(self.votes, self.proposals[i].id)
            }
    }

    /// The session's invariant.
    pub open spec fn wf(self) -> bool {
        &&& self.total_credits > 0
        &&& self.identifiers_in_order()
        &&& self.texts_filled()
        &&& self.votes_sound()
        &&& self.ledger_balanced()
        &&& self.tallies_match()
    }

    /// The session as it is made: nothing in it and not started.
    pub open spec fn created(total_credits: i32) -> SessionView {
        SessionView {
            total_credits,
            proposals: Seq::empty(),
            voters: Seq::empty(),
            next_voter_id: 0,
            next_proposal_id: 0,
            votes: Seq::empty(),
            is_active: false,
        }
    }

    /// Why starting the session is refused, if it is.
    pub open spec fn start_error(self) -> Option<VotingError> {
        if self.is_active {
            Some(VotingError::AlreadyActive)
        } else {
            None
        }
    }

    /// The session once started.
    pub open spec fn started(self) -> SessionView {
        SessionView { is_active: true, ..self }
    }

    /// Why a proposal with this title and description is refused, if it is.
    pub open spec fn proposal_error(self, title: Seq<char>, description: Seq<char>) -> Option<
        VotingError,
    > {
        if self.is_active {
            Some(VotingError::SessionAlreadyActive)
        } else if title.len() == 0 || description.len() == 0 {
            Some(VotingError::InvalidInput)
        } else {
            None
        }
    }

    /// The session with one more proposal, which has the next identifier and
    /// an empty tally.
    pub open spec fn with_proposal(self, title: Seq<char>, description: Seq<char>) -> SessionView {
        SessionView {
            next_proposal_id: (self.next_proposal_id + 1) as i32,
            proposals: self.proposals.push(
                ProposalView {
                    id: (self.next_proposal_id + 1) as i32,
                    title,
                    description,
                    total_votes: Seq::empty(),
                    user_voted: Seq::empty(),
                },
            ),
            ..self
        }
    }

    /// Why a voter of this name is refused, if they are.
    pub open spec fn voter_error(self, name: Seq<char>) -> Option<VotingError> {
        if name.len() == 0 {
            Some(VotingError::InvalidInput)
        } else {
            None
        }
    }

    /// The session with one more voter, who has the next identifier and the
    /// whole budget.
    pub open spec fn with_voter(self, name: Seq<char>) -> SessionView {
        SessionView {
            next_voter_id: (self.next_voter_id + 1) as i32,
            voters: self.voters.push(
                VoterView {
                    id: (self.next_voter_id + 1) as i32,
                    name,
                    credits: self.total_credits,
                },
            ),
            ..self
        }
    }

    /// Why this vote is refused, if it is. The conditions are tested in this
    /// order, and the first that fails is reported.
    pub open spec fn vote_error(self, voter_id: i32, proposal_id: i32, vote_credits: i32) -> Option<
        VotingError,
    > {
        if !self.has_proposal(proposal_id) {
            Some(VotingError::ProposalNotFound)
        } else if !self.has_voter(voter_id) {
            Some(VotingError::NotARegisteredVoter)
        } else if self.voter(voter_id).credits < vote_credits {
            Some(VotingError::InsufficientCredits)
        } else if vote_credits <= 0 {
            Some(VotingError::NonPositiveCredits)
        } else if self.proposal(proposal_id).user_voted.contains(voter_id) {
            Some(VotingError::AlreadyVoted)
        } else {
            None
        }
    }

    /// The session with one more vote: the voter has paid, the proposal has
    /// one more count in its tally and one more voter, and the vote is
    /// recorded.
    pub open spec fn with_vote(self, voter_id: i32, proposal_id: i32, vote_credits: i32)
        -> SessionView
        recommends
            self.has_voter(voter_id),
            self.has_proposal(proposal_id),
    {
        SessionView {
            voters: self.voters.update(
                voter_id - 1,
                VoterView {
                    credits: (self.voter(voter_id).credits - vote_credits) as i32,
                    ..self.voter(voter_id)
                },
            ),
            proposals: self.proposals.update(
                proposal_id - 1,
                ProposalView {
                    total_votes: self.proposal(proposal_id).total_votes.push(
                        VoteCount { credits: vote_credits },
                    ),
                    user_voted: self.proposal(proposal_id).user_voted.push(voter_id),
                    ..self.proposal(proposal_id)
                },
            ),
            votes: self.votes.push(Vote { voter_id, proposal_id, credits_spent: vote_credits }),
            ..self
        }
    }

    /// The votes of one voter on one proposal, or that there is none.
    pub open spec fn voter_votes(self, voter_id: i32, proposal_id: i32) -> Result<
        VoteCount,
        VotingError,
    > {
        match recorded(self.votes, voter_id, proposal_id) {
            Some(vote) => Ok(VoteCount { credits: vote.credits_spent }),
            None => Err(VotingError::VoteNotFound),
        }
    }
}

} // verus!
