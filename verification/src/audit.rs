//! Testing a session's invariant at run time. The fields of a session are
//! open to its owner; every operation asks for a sound session, and
//! `Session::is_sound` says whether one is.

use vstd::prelude::*;
use crate::laws::{lemma_counts_prefix, lemma_spent_grows};
use crate::model::{counts_on, spent_by, voters_on, VoteCount};
use crate::session::Session;

verus! {

impl Session {
    fn identifiers_in_order(&self) -> (ok: bool)
        ensures
            ok == self@.identifiers_in_order(),
    {
        if self.next_proposal_id < 0 || self.next_proposal_id as usize != self.proposals.len() {
            return false;
        }
        if self.next_voter_id < 0 || self.next_voter_id as usize != self.voters.len() {
            return false;
        }
        let mut i: usize = 0;
        while i < self.proposals.len()
            invariant
                i <= self.proposals.len() <= i32::MAX,
                forall|k: int| 0 <= k < i ==> (#[trigger] self@.proposals[k]).id == k + 1,
            decreases self.proposals.len() - i,
        {
            if self.proposals[i].id as i64 != i as i64 + 1 {
                assert(self@.proposals[i as int].id != i + 1);
                return false;
            }
            i += 1;
        }
        let mut i: usize = 0;
        while i < self.voters.len()
            invariant
                i <= self.voters.len() <= i32::MAX,
                forall|k: int| 0 <= k < i ==> (#[trigger] self@.voters[k]).id == k + 1,
            decreases self.voters.len() - i,
        {
            if self.voters[i].id as i64 != i as i64 + 1 {
                assert(self@.voters[i as int].id != i + 1);
                return false;
            }
            i += 1;
        }
        true
    }

    fn texts_filled(&self) -> (ok: bool)
        ensures
            ok == self@.texts_filled(),
    {
        let mut i: usize = 0;
        while i < self.proposals.len()
            invariant
                i <= self.proposals.len(),
                forall|k: int|
                    0 <= k < i ==> (#[trigger] self@.proposals[k]).title.len() > 0
                        && self@.proposals[k].description.len() > 0,
            decreases self.proposals.len() - i,
        {
            let proposal = &self.proposals[i];
            if proposal.title.as_str().is_empty() || proposal.description.as_str().is_empty() {
                assert(self@.proposals[i as int] == proposal@);
                return false;
            }
            i += 1;
        }
        let mut i: usize = 0;
        while i < self.voters.len()
            invariant
                i <= self.voters.len(),
                forall|k: int| 0 <= k < i ==> (#[trigger] self@.voters[k]).name.len() > 0,
            decreases self.voters.len() - i,
        {
            if self.voters[i].name.as_str().is_empty() {
                assert(self@.voters[i as int] == self.voters@[i as int]@);
                return false;
            }
            i += 1;
        }
        true
    }

    fn votes_sound(&self) -> (ok: bool)
        ensures
            ok == self@.votes_sound(),
    {
        let mut i: usize = 0;
        while i < self.votes.len()
            invariant
                i <= self.votes.len(),
                forall|k: int|
                    0 <= k < i ==> {
                        &&& (#[trigger] self@.votes[k]).credits_spent > 0
                        &&& self@.has_voter(self@.votes[k].voter_id)
                        &&& self@.has_proposal(self@.votes[k].proposal_id)
                    },
                forall|a: int, b: int|
                    0 <= a < b < i ==> !((#[trigger] self@.votes[a]).voter_id == (
                    #[trigger] self@.votes[b]).voter_id && self@.votes[a].proposal_id
                        == self@.votes[b].proposal_id),
            decreases self.votes.len() - i,
        {
            let vote = self.votes[i];
            assert(vote == self@.votes[i as int]);
            if vote.credits_spent <= 0 || !self.has_voter(vote.voter_id) || !self.has_proposal(
                vote.proposal_id,
            ) {
                return false;
            }
            let mut j: usize = 0;
            while j < i
                invariant
                    j <= i < self.votes.len(),
                    vote == self@.votes[i as int],
                    forall|a: int|
                        0 <= a < j ==> !((#[trigger] self@.votes[a]).voter_id == vote.voter_id
                            && self@.votes[a].proposal_id == vote.proposal_id),
                decreases i - j,
            {
                let earlier = self.votes[j];
                assert(earlier == self@.votes[j as int]);
                if earlier.voter_id == vote.voter_id && earlier.proposal_id == vote.proposal_id {
                    return false;
                }
                j += 1;
            }
            i += 1;
        }
        true
    }

    /// Whether the voter's votes spent exactly `amount`.
    fn spent_is(&self, voter_id: i32, amount: i32) -> (ok: bool)
        requires
            self@.votes_sound(),
            0 <= amount,
        ensures
            ok == (spent_by(self.votes@, voter_id) == amount),
    {
        let mut spent: i32 = 0;
        let mut j: usize = 0;
        proof {
            assert forall|k: int| 0 <= k < self.votes@.len() implies (
            #[trigger] self.votes@[k]).credits_spent > 0 by {
                assert(self@.votes[k].credits_spent > 0);
            }
        }
        while j < self.votes.len()
            invariant
                j <= self.votes.len(),
                forall|k: int|
                    0 <= k < self.votes@.len() ==> (#[trigger] self.votes@[k]).credits_spent > 0,
                spent == spent_by(self.votes@.take(j as int), voter_id),
                0 <= spent <= amount,
            decreases self.votes.len() - j,
        {
            let vote = self.votes[j];
            proof {
                let seen = self.votes@.take(j + 1);
                assert(seen.last() == vote);
                assert(seen.drop_last() =~= self.votes@.take(j as int));
                lemma_spent_grows(self.votes@, voter_id, j + 1);
            }
            if vote.voter_id == voter_id {
                if vote.credits_spent > amount - spent {
                    return false;
                }
                spent = spent + vote.credits_spent;
            }
            j += 1;
        }
        proof {
            assert(self.votes@.take(j as int) =~= self.votes@);
        }
        spent == amount
    }

    fn ledger_balanced(&self) -> (ok: bool)
        requires
            self@.votes_sound(),
        ensures
            ok == self@.ledger_balanced(),
    {
        let mut i: usize = 0;
        while i < self.voters.len()
            invariant
                i <= self.voters.len(),
                self@.votes_sound(),
                forall|k: int|
                    0 <= k < i ==> {
                        &&& 0 <= (#[trigger] self@.voters[k]).credits <= self.total_credits
                        &&& self.total_credits - self@.voters[k].credits == spent_by(
                            self.votes@,
                            self@.voters[k].id,
                        )
                    },
            decreases self.voters.len() - i,
        {
            let voter = &self.voters[i];
            assert(self@.voters[i as int] == voter@);
            if voter.credits < 0 || voter.credits > self.total_credits {
                return false;
            }
            if !self.spent_is(voter.id, self.total_credits - voter.credits) {
                return false;
            }
            i += 1;
        }
        true
    }

    /// Whether the tally and the voters of the proposal at `at` are those of
    /// the votes cast on it.
    fn tally_matches(&self, at: usize) -> (ok: bool)
        requires
            at < self.proposals@.len(),
        ensures
            ok == (self.proposals@[at as int].total_votes@ == counts_on(
                self.votes@,
                self.proposals@[at as int].id,
            ) && self.proposals@[at as int].user_voted@ == voters_on(
                self.votes@,
                self.proposals@[at as int].id,
            )),
    {
        let proposal = &self.proposals[at];
        let ghost tally = proposal.total_votes@;
        let ghost listed = proposal.user_voted@;
        let ghost all_counts = counts_on(self.votes@, proposal.id);
        let ghost all_voters = voters_on(self.votes@, proposal.id);
        let mut seen: usize = 0;
        let mut j: usize = 0;
        proof {
            assert(self.votes@.take(0).len() == 0);
            assert(tally.take(0) =~= Seq::<VoteCount>::empty());
            assert(listed.take(0) =~= Seq::<i32>::empty());
        }
        while j < self.votes.len()
            invariant
                j <= self.votes.len(),
                seen <= j,
                seen <= tally.len(),
                seen <= listed.len(),
                proposal == &self.proposals@[at as int],
                tally == proposal.total_votes@,
                listed == proposal.user_voted@,
                all_counts == counts_on(self.votes@, proposal.id),
                all_voters == voters_on(self.votes@, proposal.id),
                counts_on(self.votes@.take(j as int), proposal.id) == tally.take(seen as int),
                voters_on(self.votes@.take(j as int), proposal.id) == listed.take(seen as int),
            decreases self.votes.len() - j,
        {
            let vote = self.votes[j];
            proof {
                let now = self.votes@.take(j + 1);
                assert(now.last() == vote);
                assert(now.drop_last() =~= self.votes@.take(j as int));
                lemma_counts_prefix(self.votes@, proposal.id, j + 1);
            }
            if vote.proposal_id == proposal.id {
                if seen >= proposal.total_votes.len() || seen >= proposal.user_voted.len()
                    || proposal.total_votes[seen].credits != vote.credits_spent
                    || proposal.user_voted[seen] != vote.voter_id {
                    proof {
                        let counts = counts_on(self.votes@.take(j + 1), proposal.id);
                        let voters = voters_on(self.votes@.take(j + 1), proposal.id);
                        assert(counts.len() == seen + 1);
                        assert(counts[seen as int].credits == vote.credits_spent);
                        assert(voters[seen as int] == vote.voter_id);
                        if tally == all_counts && listed == all_voters {
                            assert(all_counts.take(seen + 1)[seen as int] == tally[seen as int]);
                            assert(all_voters.take(seen + 1)[seen as int] == listed[seen as int]);
                        }
                    }
                    return false;
                }
                seen += 1;
                proof {
                    assert(tally.take(seen as int) =~= tally.take(seen - 1).push(
                        tally[seen - 1],
                    ));
                    assert(listed.take(seen as int) =~= listed.take(seen - 1).push(
                        listed[seen - 1],
                    ));
                }
            }
            j += 1;
        }
        proof {
            assert(self.votes@.take(j as int) =~= self.votes@);
            if seen == tally.len() {
                assert(tally.take(seen as int) =~= tally);
            }
            if seen == listed.len() {
                assert(listed.take(seen as int) =~= listed);
            }
            lemma_counts_prefix(self.votes@, proposal.id, j as int);
        }
        seen == proposal.total_votes.len() && seen == proposal.user_voted.len()
    }

    fn tallies_match(&self) -> (ok: bool)
        ensures
            ok == self@.tallies_match(),
    {
        let mut i: usize = 0;
        while i < self.proposals.len()
            invariant
                i <= self.proposals.len(),
                forall|k: int|
                    0 <= k < i ==> {
                        &&& (#[trigger] self@.proposals[k]).total_votes == counts_on(
                            self.votes@,
                            self@.proposals[k].id,
                        )
                        &&& self@.proposals[k].user_voted == voters_on(
                            self.votes@,
                            self@.proposals[k].id,
                        )
                    },
            decreases self.proposals.len() - i,
        {
            assert(self@.proposals[i as int] == self.proposals@[i as int]@);
            if !self.tally_matches(i) {
                return false;
            }
            i += 1;
        }
        true
    }

    /// Whether the session's invariant holds. It holds of every session
    /// that was made by `create_session` and changed by the operations
    /// alone.
    pub fn is_sound(&self) -> (ok: bool)
        ensures
            ok == self.wf(),
    {
        self.total_credits > 0 && self.identifiers_in_order() && self.texts_filled()
            && self.votes_sound() && self.ledger_balanced() && self.tallies_match()
    }
}

} // verus!
