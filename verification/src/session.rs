//! The session: its state and the operations that change and read it.

use vstd::prelude::*;
use crate::error::VotingError;
use crate::laws::{
    lemma_created_wf, lemma_ledger, lemma_spent_grows, lemma_started_wf, lemma_with_proposal_wf,
    lemma_with_vote_wf, lemma_with_voter_wf,
};
use crate::model::{recorded, spent_by, Proposal, SessionView, Vote, VoteCount, Voter};

verus! {

/// One quadratic-voting session. It owns the proposals, the voters and the
/// votes; the voter with identifier `n` is the `n`-th of `voters`, and the
/// proposal with identifier `n` the `n`-th of `proposals`.
#[derive(Debug)]
pub struct Session {
    /// The budget that each voter starts with.
    pub total_credits: i32,
    pub proposals: Vec<Proposal>,
    pub voters: Vec<Voter>,
    /// The last voter identifier handed out.
    pub next_voter_id: i32,
    /// The last proposal identifier handed out.
    pub next_proposal_id: i32,
    /// The votes, oldest first.
    pub votes: Vec<Vote>,
    pub is_active: bool,
}

impl View for Session {
    type V = SessionView;

    open spec fn view(&self) -> SessionView {
        SessionView {
            total_credits: self.total_credits,
            proposals: Seq::new(self.proposals@.len(), |i: int| self.proposals@[i]@),
            voters: Seq::new(self.voters@.len(), |i: int| self.voters@[i]@),
            next_voter_id: self.next_voter_id,
            next_proposal_id: self.next_proposal_id,
            votes: self.votes@,
            is_active: self.is_active,
        }
    }
}

impl Session {
    /// The session's invariant: see `SessionView::wf`.
    pub open spec fn wf(&self) -> bool {
        self@.wf()
    }

    /// Makes a session with the given budget for each voter: nothing in it,
    /// and not started.
    pub fn create_session(total_credits: i32) -> (session: Session)
        requires
            total_credits > 0,
        ensures
            session@ == SessionView::created(total_credits),
            session.wf(),
    {
        let session = Session {
            total_credits,
            proposals: Vec::new(),
            voters: Vec::new(),
            next_voter_id: 0,
            next_proposal_id: 0,
            votes: Vec::new(),
            is_active: false,
        };
        proof {
            assert(session@.proposals =~= Seq::empty());
            assert(session@.voters =~= Seq::empty());
            lemma_created_wf(total_credits);
        }
        session
    }

    /// Starts the session. This succeeds once: a started session stays
    /// started, and starting it again is refused.
    pub fn start_session(&mut self) -> (res: Result<(), VotingError>)
        requires
            old(self).wf(),
        ensures
            final(self).wf(),
            final(self).is_active,
            match old(self)@.start_error() {
                Some(e) => res == Err::<(), VotingError>(e) && *final(self) == *old(self),
                None => res == Ok::<(), VotingError>(()) && final(self)@ == old(self)@.started(),
            },
    {
        if self.is_active {
            return Err(VotingError::AlreadyActive);
        }
        self.is_active = true;
        proof {
            lemma_started_wf(old(self)@);
            assert(self@.proposals =~= old(self)@.proposals);
            assert(self@.voters =~= old(self)@.voters);
        }
        Ok(())
    }

    /// Adds a proposal and returns its identifier, the successor of the last
    /// one handed out. A started session takes no proposal, and neither text
    /// may be empty; a refused proposal uses up no identifier. An accepted
    /// one needs an identifier that is left.
    pub fn add_proposal(&mut self, title: String, description: String) -> (res: Result<
        i32,
        VotingError,
    >)
        requires
            old(self).wf(),
            old(self)@.proposal_error(title@, description@) is None ==> old(self).next_proposal_id
                < i32::MAX,
        ensures
            final(self).wf(),
            match old(self)@.proposal_error(title@, description@) {
                Some(e) => res == Err::<i32, VotingError>(e) && *final(self) == *old(self),
                None => res == Ok::<i32, VotingError>((old(self).next_proposal_id + 1) as i32)
                    && final(self)@ == old(self)@.with_proposal(title@, description@),
            },
    {
        if self.is_active {
            return Err(VotingError::SessionAlreadyActive);
        }
        if title.as_str().is_empty() || description.as_str().is_empty() {
            return Err(VotingError::InvalidInput);
        }
        let proposal_id: i32 = self.next_proposal_id + 1;
        let proposal = Proposal {
            id: proposal_id,
            title,
            description,
            total_votes: Vec::new(),
            user_voted: Vec::new(),
        };
        self.next_proposal_id = proposal_id;
        self.proposals.push(proposal);
        proof {
            lemma_with_proposal_wf(old(self)@, title@, description@);
            assert(self@.proposals =~= old(self)@.with_proposal(title@, description@).proposals);
            assert(self@.voters =~= old(self)@.voters);
        }
        Ok(proposal_id)
    }

    /// Registers a voter and returns their identifier, the successor of the
    /// last one handed out. The voter starts with the whole budget. Names
    /// need not differ, but none may be empty; a refused registration uses
    /// up no identifier. An accepted one needs an identifier that is left.
    pub fn register_voter(&mut self, name: String) -> (res: Result<i32, VotingError>)
        requires
            old(self).wf(),
            old(self)@.voter_error(name@) is None ==> old(self).next_voter_id < i32::MAX,
        ensures
            final(self).wf(),
            match old(self)@.voter_error(name@) {
                Some(e) => res == Err::<i32, VotingError>(e) && *final(self) == *old(self),
                None => res == Ok::<i32, VotingError>((old(self).next_voter_id + 1) as i32)
                    && final(self)@ == old(self)@.with_voter(name@),
            },
    {
        if name.as_str().is_empty() {
            return Err(VotingError::InvalidInput);
        }
        let voter_id: i32 = self.next_voter_id + 1;
        let voter = Voter { id: voter_id, name, credits: self.total_credits };
        self.next_voter_id = voter_id;
        self.voters.push(voter);
        proof {
            lemma_with_voter_wf(old(self)@, name@);
            assert(self@.voters =~= old(self)@.with_voter(name@).voters);
            assert(self@.proposals =~= old(self)@.proposals);
        }
        Ok(voter_id)
    }

    /// Whether a voter has this identifier.
    pub fn has_voter(&self, voter_id: i32) -> (ok: bool)
        ensures
            ok == self@.has_voter(voter_id),
    {
        1 <= voter_id && voter_id as usize <= self.voters.len()
    }

    /// Whether a proposal has this identifier.
    pub fn has_proposal(&self, proposal_id: i32) -> (ok: bool)
        ensures
            ok == self@.has_proposal(proposal_id),
    {
        1 <= proposal_id && proposal_id as usize <= self.proposals.len()
    }

    /// The vote of a voter on a proposal, if they cast one.
    pub fn find_vote(&self, voter_id: i32, proposal_id: i32) -> (found: Option<Vote>)
        ensures
            found == recorded(self.votes@, voter_id, proposal_id),
    {
        let mut i: usize = self.votes.len();
        proof {
            assert(self.votes@.take(i as int) =~= self.votes@);
        }
        while i > 0
            invariant
                i <= self.votes.len(),
                recorded(self.votes@, voter_id, proposal_id) == recorded(
                    self.votes@.take(i as int),
                    voter_id,
                    proposal_id,
                ),
            decreases i,
        {
            let vote = self.votes[i - 1];
            proof {
                let seen = self.votes@.take(i as int);
                assert(seen.last() == vote);
                assert(seen.drop_last() =~= self.votes@.take(i - 1));
            }
            if vote.voter_id == voter_id && vote.proposal_id == proposal_id {
                return Some(vote);
            }
            i -= 1;
        }
        proof {
            assert(self.votes@.take(0).len() == 0);
        }
        None
    }

    /// Spends `vote_credits` of a voter's credits on a proposal. The
    /// conditions of `SessionView::vote_error` are tested in its order and
    /// the first that fails is reported; a refused vote changes nothing. An
    /// accepted vote takes the credits from the voter, adds its count to the
    /// proposal's tally and its voter to the proposal's list, and is
    /// recorded.
    ///
    /// Votes are taken whether or not the session has been started.
    pub fn vote(&mut self, voter_id: i32, proposal_id: i32, vote_credits: i32) -> (res: Result<
        (),
        VotingError,
    >)
        requires
            old(self).wf(),
        ensures
            final(self).wf(),
            match old(self)@.vote_error(voter_id, proposal_id, vote_credits) {
                Some(e) => res == Err::<(), VotingError>(e) && *final(self) == *old(self),
                None => res == Ok::<(), VotingError>(()) && final(self)@ == old(self)@.with_vote(
                    voter_id,
                    proposal_id,
                    vote_credits,
                ),
            },
    {
        if !self.has_proposal(proposal_id) {
            return Err(VotingError::ProposalNotFound);
        }
        if !self.has_voter(voter_id) {
            return Err(VotingError::NotARegisteredVoter);
        }
        let voter_at: usize = (voter_id - 1) as usize;
        let proposal_at: usize = (proposal_id - 1) as usize;
        assert(self@.voters[voter_at as int] == self.voters@[voter_at as int]@);
        if self.voters[voter_at].credits < vote_credits {
            return Err(VotingError::InsufficientCredits);
        }
        if vote_credits <= 0 {
            return Err(VotingError::NonPositiveCredits);
        }
        assert(self@.proposals[proposal_at as int] == self.proposals@[proposal_at as int]@);
        if self.proposals[proposal_at].has_voted(voter_id) {
            return Err(VotingError::AlreadyVoted);
        }
        let vote = Vote { voter_id, proposal_id, credits_spent: vote_credits };
        proof {
            assert(0 <= self@.voters[voter_at as int].credits);
        }
        self.voters[voter_at].credits -= vote_credits;
        self.proposals[proposal_at].total_votes.push(vote.vote_count());
        self.proposals[proposal_at].user_voted.push(voter_id);
        self.votes.push(vote);
        proof {
            let after = old(self)@.with_vote(voter_id, proposal_id, vote_credits);
            lemma_with_vote_wf(old(self)@, voter_id, proposal_id, vote_credits);
            assert(old(self)@.voters[voter_at as int] == old(self).voters@[voter_at as int]@);
            assert(old(self)@.proposals[proposal_at as int] == old(
                self,
            ).proposals@[proposal_at as int]@);
            assert(self@.voters =~= after.voters);
            assert(self@.proposals =~= after.proposals);
        }
        Ok(())
    }

    /// The votes that a voter cast on a proposal: the square root of the
    /// credits they spent on it. Where they cast none, this is refused; it
    /// is never reported as no votes.
    pub fn get_voter_votes(&self, voter_id: i32, proposal_id: i32) -> (res: Result<
        VoteCount,
        VotingError,
    >)
        ensures
            res == self@.voter_votes(voter_id, proposal_id),
    {
        match self.find_vote(voter_id, proposal_id) {
            Some(vote) => Ok(vote.vote_count()),
            None => Err(VotingError::VoteNotFound),
        }
    }

    /// The credits that a voter spent over all their votes; nothing for one
    /// who cast none.
    pub fn get_voter_total_credits_spent(&self, voter_id: i32) -> (spent: i32)
        requires
            self.wf(),
        ensures
            spent == spent_by(self.votes@, voter_id),
    {
        let mut spent: i32 = 0;
        let mut i: usize = 0;
        proof {
            lemma_ledger(self@, voter_id);
            assert forall|k: int| 0 <= k < self.votes@.len() implies (
            #[trigger] self.votes@[k]).credits_spent > 0 by {
                assert(self@.votes[k].credits_spent > 0);
            }
        }
        while i < self.votes.len()
            invariant
                i <= self.votes.len(),
                forall|k: int|
                    0 <= k < self.votes@.len() ==> (#[trigger] self.votes@[k]).credits_spent > 0,
                spent == spent_by(self.votes@.take(i as int), voter_id),
                spent_by(self.votes@, voter_id) <= i32::MAX,
            decreases self.votes.len() - i,
        {
            let vote = self.votes[i];
            proof {
                let seen = self.votes@.take(i + 1);
                assert(seen.last() == vote);
                assert(seen.drop_last() =~= self.votes@.take(i as int));
                lemma_spent_grows(self.votes@, voter_id, i + 1);
            }
            if vote.voter_id == voter_id {
                spent = spent + vote.credits_spent;
            }
            i += 1;
        }
        proof {
            assert(self.votes@.take(i as int) =~= self.votes@);
        }
        spent
    }

    /// The voter with the given identifier, if there is one.
    pub fn voter(&self, voter_id: i32) -> (found: Option<&Voter>)
        ensures
            match found {
                Some(voter) => self@.has_voter(voter_id) && *voter == self.voters@[voter_id - 1],
                None => !self@.has_voter(voter_id),
            },
    {
        if self.has_voter(voter_id) {
            Some(&self.voters[(voter_id - 1) as usize])
        } else {
            None
        }
    }

    /// The proposal with the given identifier, if there is one.
    pub fn proposal(&self, proposal_id: i32) -> (found: Option<&Proposal>)
        ensures
            match found {
                Some(proposal) => self@.has_proposal(proposal_id) && *proposal
                    == self.proposals@[proposal_id - 1],
                None => !self@.has_proposal(proposal_id),
            },
    {
        if self.has_proposal(proposal_id) {
            Some(&self.proposals[(proposal_id - 1) as usize])
        } else {
            None
        }
    }
}

} // verus!
