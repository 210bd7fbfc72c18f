//! The results of a session: for each proposal, who voted on it and with
//! what.

use vstd::prelude::*;
use crate::laws::lemma_recorded;
use crate::model::{recorded, Proposal, ProposalView, SessionView, Vote};
use crate::roots::{whole_root, whole_votes};
use crate::session::Session;

verus! {

/// One voter's vote on a proposal, as the results show it.
#[derive(Debug)]
pub struct ResultLine<'a> {
    pub voter_id: i32,
    pub voter_name: &'a str,
    /// The whole votes that the credits bought: their square root, rounded
    /// down. It is computed from the credits, not taken from the tally.
    pub votes: i32,
    pub credits_spent: i32,
}

/// A proposal and the votes cast on it, by ascending voter identifier.
#[derive(Debug)]
pub struct ProposalResult<'a> {
    pub proposal: &'a Proposal,
    pub lines: Vec<ResultLine<'a>>,
}

/// What a `ResultLine` is, as a value.
pub ghost struct ResultLineView {
    pub voter_id: i32,
    pub voter_name: Seq<char>,
    pub votes: int,
    pub credits_spent: i32,
}

/// What a `ProposalResult` is, as a value.
pub ghost struct ProposalResultView {
    pub proposal: ProposalView,
    pub lines: Seq<ResultLineView>,
}

impl<'a> View for ResultLine<'a> {
    type V = ResultLineView;

    open spec fn view(&self) -> ResultLineView {
        ResultLineView {
            voter_id: self.voter_id,
            voter_name: self.voter_name@,
            votes: self.votes as int,
            credits_spent: self.credits_spent,
        }
    }
}

impl<'a> View for ProposalResult<'a> {
    type V = ProposalResultView;

    open spec fn view(&self) -> ProposalResultView {
        ProposalResultView { proposal: self.proposal@, lines: lines_view(self.lines@) }
    }
}

/// The lines of a list, each as a value.
pub open spec fn lines_view<'a>(lines: Seq<ResultLine<'a>>) -> Seq<ResultLineView> {
    Seq::new(lines.len(), |i: int| lines[i]@)
}

/// The line that shows a vote.
pub open spec fn line_of(s: SessionView, vote: Vote) -> ResultLineView {
    ResultLineView {
        voter_id: vote.voter_id,
        voter_name: s.voter(vote.voter_id).name,
        votes: whole_root(vote.credits_spent as int),
        credits_spent: vote.credits_spent,
    }
}

/// The lines of the votes on a proposal by the voters with the identifiers 1
/// to `n`, in that order.
pub open spec fn lines_upto(s: SessionView, proposal_id: i32, n: int) -> Seq<ResultLineView>
    decreases n,
{
    if n <= 0 {
        Seq::empty()
    } else {
        let before = lines_upto(s, proposal_id, n - 1);
        match recorded(s.votes, n as i32, proposal_id) {
            Some(vote) => before.push(line_of(s, vote)),
            None => before,
        }
    }
}

/// The result of the `i`-th proposal: the proposal, and the lines of all
/// voters' votes on it.
pub open spec fn result_at(s: SessionView, i: int) -> ProposalResultView {
    ProposalResultView {
        proposal: s.proposals[i],
        lines: lines_upto(s, s.proposals[i].id, s.voters.len() as int),
    }
}

/// A line shows the vote of its voter on the proposal.
pub open spec fn shows_vote(s: SessionView, proposal_id: i32, line: ResultLineView) -> bool {
    match recorded(s.votes, line.voter_id, proposal_id) {
        Some(vote) => line == line_of(s, vote),
        None => false,
    }
}

/// The lines of a proposal are in ascending order of voter identifier, each
/// shows the vote of its voter on the proposal, and every voter up to `n`
/// who voted on the proposal has a line.
pub proof fn lemma_lines_upto(s: SessionView, proposal_id: i32, n: int)
    requires
        s.wf(),
        0 <= n <= s.voters.len(),
    ensures
        forall|i: int|
            0 <= i < lines_upto(s, proposal_id, n).len() ==> 1 <= (#[trigger] lines_upto(
                s,
                proposal_id,
                n,
            )[i]).voter_id <= n && shows_vote(s, proposal_id, lines_upto(s, proposal_id, n)[i]),
        forall|i: int, j: int|
            0 <= i < j < lines_upto(s, proposal_id, n).len() ==> (#[trigger] lines_upto(
                s,
                proposal_id,
                n,
            )[i]).voter_id < (#[trigger] lines_upto(s, proposal_id, n)[j]).voter_id,
        forall|voter_id: i32|
            1 <= voter_id <= n && (#[trigger] recorded(s.votes, voter_id, proposal_id)) is Some
                ==> exists|i: int|
                0 <= i < lines_upto(s, proposal_id, n).len() && (#[trigger] lines_upto(
                    s,
                    proposal_id,
                    n,
                )[i]).voter_id == voter_id,
    decreases n,
{
    if n > 0 {
        let before = lines_upto(s, proposal_id, n - 1);
        let lines = lines_upto(s, proposal_id, n);
        lemma_lines_upto(s, proposal_id, n - 1);
        lemma_recorded(s.votes, n as i32, proposal_id);
        assert forall|i: int| 0 <= i < lines.len() implies 1 <= (#[trigger] lines[i]).voter_id <= n
            && shows_vote(s, proposal_id, lines[i]) by {
            if i < before.len() {
                assert(lines[i] == before[i]);
            }
        }
        assert forall|i: int, j: int| 0 <= i < j < lines.len() implies (#[trigger] lines[i]).voter_id
            < (#[trigger] lines[j]).voter_id by {
            assert(lines[i] == before[i]);
            if j < before.len() {
                assert(lines[j] == before[j]);
            }
        }
        assert forall|voter_id: i32|
            1 <= voter_id <= n && (#[trigger] recorded(s.votes, voter_id, proposal_id)) is Some
            implies exists|i: int|
            0 <= i < lines.len() && (#[trigger] lines[i]).voter_id == voter_id by {
            if voter_id == n {
                assert(lines[lines.len() - 1].voter_id == voter_id);
            } else {
                let i = choose|i: int| 0 <= i < before.len() && before[i].voter_id == voter_id;
                assert(lines[i] == before[i]);
            }
        }
    }
}

impl Session {
    /// The lines of the votes on one proposal, by ascending voter
    /// identifier.
    pub fn get_proposal_lines(&self, proposal_id: i32) -> (lines: Vec<ResultLine<'_>>)
        requires
            self.wf(),
        ensures
            lines_view(lines@) == lines_upto(self@, proposal_id, self.voters@.len() as int),
    {
        let mut lines: Vec<ResultLine<'_>> = Vec::new();
        let mut n: usize = 0;
        proof {
            assert(lines_view(lines@) =~= lines_upto(self@, proposal_id, 0));
        }
        while n < self.voters.len()
            invariant
                n <= self.voters.len(),
                self.wf(),
                lines_view(lines@) == lines_upto(self@, proposal_id, n as int),
            decreases self.voters.len() - n,
        {
            let voter_id: i32 = (n + 1) as i32;
            let ghost before = lines_view(lines@);
            match self.find_vote(voter_id, proposal_id) {
                Some(vote) => {
                    proof {
                        lemma_recorded(self.votes@, voter_id, proposal_id);
                        assert(self@.voters[n as int] == self.voters@[n as int]@);
                    }
                    lines.push(
                        ResultLine {
                            voter_id,
                            voter_name: self.voters[n].name.as_str(),
                            votes: whole_votes(vote.credits_spent),
                            credits_spent: vote.credits_spent,
                        },
                    );
                    proof {
                        assert(lines_view(lines@) =~= before.push(line_of(self@, vote)));
                    }
                },
                None => {},
            }
            n += 1;
        }
        lines
    }

    /// The results: for each proposal, in the order in which they were
    /// added, the proposal and the votes cast on it, by ascending voter
    /// identifier. Nothing is changed.
    pub fn get_results(&self) -> (results: Vec<ProposalResult<'_>>)
        requires
            self.wf(),
        ensures
            results@.len() == self.proposals@.len(),
            forall|i: int|
                0 <= i < results@.len() ==> (#[trigger] results@[i])@ == result_at(self@, i),
    {
        let mut results: Vec<ProposalResult<'_>> = Vec::new();
        let mut k: usize = 0;
        while k < self.proposals.len()
            invariant
                k <= self.proposals.len(),
                self.wf(),
                results@.len() == k,
                forall|i: int| 0 <= i < k ==> (#[trigger] results@[i])@ == result_at(self@, i),
            decreases self.proposals.len() - k,
        {
            let proposal = &self.proposals[k];
            let lines = self.get_proposal_lines(proposal.id);
            proof {
                assert(self@.proposals[k as int] == self.proposals@[k as int]@);
            }
            results.push(ProposalResult { proposal, lines });
            k += 1;
        }
        results
    }
}

} // verus!
