//! What holds of every session: facts about the records, and the invariant
//! that each operation keeps.

use vstd::prelude::*;
use crate::error::VotingError;
use crate::model::{counts_on, recorded, spent_by, voters_on, SessionView, Vote, VoteCount};

verus! {

/// `recorded` finds a vote exactly when some vote is by that voter on that
/// proposal, and what it finds is such a vote.
pub proof fn lemma_recorded(votes: Seq<Vote>, voter_id: i32, proposal_id: i32)
    ensures
        match recorded(votes, voter_id, proposal_id) {
            Some(vote) => votes.contains(vote) && vote.voter_id == voter_id && vote.proposal_id
                == proposal_id,
            None => forall|i: int|
                0 <= i < votes.len() ==> !((#[trigger] votes[i]).voter_id == voter_id
                    && votes[i].proposal_id == proposal_id),
        },
    decreases votes.len(),
{
    if votes.len() > 0 {
        let rest = votes.drop_last();
        lemma_recorded(rest, voter_id, proposal_id);
        if votes.last().voter_id == voter_id && votes.last().proposal_id == proposal_id {
            assert(votes[votes.len() - 1] == votes.last());
        } else {
            match recorded(rest, voter_id, proposal_id) {
                Some(vote) => {
                    let i = choose|i: int| 0 <= i < rest.len() && rest[i] == vote;
                    assert(votes[i] == vote);
                },
                None => {
                    assert forall|i: int| 0 <= i < votes.len() implies !((
                    #[trigger] votes[i]).voter_id == voter_id && votes[i].proposal_id
                        == proposal_id) by {
                        if i < rest.len() {
                            assert(rest[i] == votes[i]);
                        }
                    }
                },
            }
        }
    }
}

/// A voter of whom no vote speaks has spent nothing.
pub proof fn lemma_spent_nothing(votes: Seq<Vote>, voter_id: i32)
    requires
        forall|i: int| 0 <= i < votes.len() ==> (#[trigger] votes[i]).voter_id != voter_id,
    ensures
        spent_by(votes, voter_id) == 0,
    decreases votes.len(),
{
    if votes.len() > 0 {
        let rest = votes.drop_last();
        assert forall|i: int| 0 <= i < rest.len() implies (#[trigger] rest[i]).voter_id
            != voter_id by {
            assert(rest[i] == votes[i]);
        }
        lemma_spent_nothing(rest, voter_id);
        assert(votes.last() == votes[votes.len() - 1]);
    }
}

/// Where every vote spends a positive amount, a voter has spent no more over
/// the first `n` votes than over all of them, and never less than nothing.
pub proof fn lemma_spent_grows(votes: Seq<Vote>, voter_id: i32, n: int)
    requires
        0 <= n <= votes.len(),
        forall|i: int| 0 <= i < votes.len() ==> (#[trigger] votes[i]).credits_spent > 0,
    ensures
        0 <= spent_by(votes.take(n), voter_id) <= spent_by(votes, voter_id),
    decreases votes.len(),
{
    if n == votes.len() {
        assert(votes.take(n) =~= votes);
        if votes.len() > 0 {
            let rest = votes.drop_last();
            assert forall|i: int| 0 <= i < rest.len() implies (#[trigger] rest[i]).credits_spent
                > 0 by {
                assert(rest[i] == votes[i]);
            }
            lemma_spent_grows(rest, voter_id, n - 1);
            assert(votes.last() == votes[votes.len() - 1]);
        }
    } else {
        let rest = votes.drop_last();
        assert forall|i: int| 0 <= i < rest.len() implies (#[trigger] rest[i]).credits_spent
            > 0 by {
            assert(rest[i] == votes[i]);
        }
        lemma_spent_grows(rest, voter_id, n);
        assert(rest.take(n) =~= votes.take(n));
        assert(votes.last() == votes[votes.len() - 1]);
    }
}

/// One more vote adds its credits to what its voter spent, and nothing to
/// what any other voter spent.
pub proof fn lemma_spent_push(votes: Seq<Vote>, vote: Vote, voter_id: i32)
    ensures
        spent_by(votes.push(vote), voter_id) == spent_by(votes, voter_id) + (if vote.voter_id
            == voter_id {
            vote.credits_spent as int
        } else {
            0
        }),
{
    assert(votes.push(vote).drop_last() =~= votes);
}

/// One more vote adds its count to the counts on its proposal and its voter
/// to the voters on it, and nothing to those on any other proposal.
pub proof fn lemma_counts_push(votes: Seq<Vote>, vote: Vote, proposal_id: i32)
    ensures
        counts_on(votes.push(vote), proposal_id) == (if vote.proposal_id == proposal_id {
            counts_on(votes, proposal_id).push(VoteCount { credits: vote.credits_spent })
        } else {
            counts_on(votes, proposal_id)
        }),
        voters_on(votes.push(vote), proposal_id) == (if vote.proposal_id == proposal_id {
            voters_on(votes, proposal_id).push(vote.voter_id)
        } else {
            voters_on(votes, proposal_id)
        }),
{
    assert(votes.push(vote).drop_last() =~= votes);
}

/// The counts and the voters on a proposal over the first `n` votes are the
/// first of those over all votes, and there are as many of the one as of the
/// other.
pub proof fn lemma_counts_prefix(votes: Seq<Vote>, proposal_id: i32, n: int)
    requires
        0 <= n <= votes.len(),
    ensures
        counts_on(votes.take(n), proposal_id).len() == voters_on(votes.take(n), proposal_id).len(),
        counts_on(votes.take(n), proposal_id).len() <= counts_on(votes, proposal_id).len(),
        counts_on(votes, proposal_id).len() == voters_on(votes, proposal_id).len(),
        counts_on(votes.take(n), proposal_id) == counts_on(votes, proposal_id).take(
            counts_on(votes.take(n), proposal_id).len() as int,
        ),
        voters_on(votes.take(n), proposal_id) == voters_on(votes, proposal_id).take(
            counts_on(votes.take(n), proposal_id).len() as int,
        ),
    decreases votes.len(),
{
    let all_counts = counts_on(votes, proposal_id);
    let all_voters = voters_on(votes, proposal_id);
    if n == votes.len() {
        assert(votes.take(n) =~= votes);
        if votes.len() > 0 {
            lemma_counts_prefix(votes.drop_last(), proposal_id, n - 1);
        }
        assert(all_counts.take(all_counts.len() as int) =~= all_counts);
        assert(all_voters.take(all_voters.len() as int) =~= all_voters);
    } else {
        let rest = votes.drop_last();
        lemma_counts_prefix(rest, proposal_id, n);
        assert(rest.take(n) =~= votes.take(n));
        let some = counts_on(votes.take(n), proposal_id).len() as int;
        assert(counts_on(rest, proposal_id).take(some) =~= all_counts.take(some));
        assert(voters_on(rest, proposal_id).take(some) =~= all_voters.take(some));
    }
}

/// The voters on a proposal are those of whom a vote on it is recorded.
pub proof fn lemma_voters_on(votes: Seq<Vote>, voter_id: i32, proposal_id: i32)
    ensures
        voters_on(votes, proposal_id).contains(voter_id) <==> recorded(
            votes,
            voter_id,
            proposal_id,
        ) is Some,
    decreases votes.len(),
{
    if votes.len() > 0 {
        let rest = votes.drop_last();
        let before = voters_on(rest, proposal_id);
        lemma_voters_on(rest, voter_id, proposal_id);
        if votes.last().proposal_id == proposal_id {
            let now = before.push(votes.last().voter_id);
            if votes.last().voter_id == voter_id {
                assert(now[now.len() - 1] == voter_id);
            } else if before.contains(voter_id) {
                let i = choose|i: int| 0 <= i < before.len() && before[i] == voter_id;
                assert(now[i] == voter_id);
            } else if now.contains(voter_id) {
                let i = choose|i: int| 0 <= i < now.len() && now[i] == voter_id;
                assert(before[i] == voter_id);
            }
        }
    }
}

/// In a sound session a proposal lists a voter exactly when a vote of theirs
/// on it is recorded.
pub proof fn lemma_has_voted(s: SessionView, voter_id: i32, proposal_id: i32)
    requires
        s.wf(),
        s.has_proposal(proposal_id),
    ensures
        s.proposal(proposal_id).user_voted.contains(voter_id) <==> recorded(
            s.votes,
            voter_id,
            proposal_id,
        ) is Some,
{
    assert(s.proposals[proposal_id - 1].id == proposal_id);
    lemma_voters_on(s.votes, voter_id, proposal_id);
}

/// A session is sound when it is made, for a positive budget.
pub proof fn lemma_created_wf(total_credits: i32)
    requires
        total_credits > 0,
    ensures
        SessionView::created(total_credits).wf(),
{
}

/// Starting a session keeps it sound.
pub proof fn lemma_started_wf(s: SessionView)
    requires
        s.wf(),
    ensures
        s.started().wf(),
{
    let t = s.started();
    assert forall|i: int| 0 <= i < t.votes.len() implies {
        &&& (#[trigger] t.votes[i]).credits_spent > 0
        &&& t.has_voter(t.votes[i].voter_id)
        &&& t.has_proposal(t.votes[i].proposal_id)
    } by {
        assert(s.has_voter(s.votes[i].voter_id));
        assert(s.has_proposal(s.votes[i].proposal_id));
    }
}

/// An accepted proposal keeps the session sound.
pub proof fn lemma_with_proposal_wf(s: SessionView, title: Seq<char>, description: Seq<char>)
    requires
        s.wf(),
        s.next_proposal_id < i32::MAX,
        s.proposal_error(title, description) is None,
    ensures
        s.with_proposal(title, description).wf(),
{
    let t = s.with_proposal(title, description);
    assert forall|i: int| 0 <= i < t.votes.len() implies {
        &&& (#[trigger] t.votes[i]).credits_spent > 0
        &&& t.has_voter(t.votes[i].voter_id)
        &&& t.has_proposal(t.votes[i].proposal_id)
    } by {
        assert(s.has_voter(s.votes[i].voter_id));
        assert(s.has_proposal(s.votes[i].proposal_id));
    }
    assert forall|i: int| 0 <= i < t.proposals.len() implies {
        &&& (#[trigger] t.proposals[i]).total_votes == counts_on(t.votes, t.proposals[i].id)
        &&& t.proposals[i].user_voted == voters_on(t.votes, t.proposals[i].id)
    } by {
        if i == s.proposals.len() {
            lemma_counts_nothing(s, t.proposals[i].id);
        } else {
            assert(t.proposals[i] == s.proposals[i]);
        }
    }
    assert forall|i: int| 0 <= i < t.proposals.len() implies (#[trigger] t.proposals[i]).id == i
        + 1 by {
        if i < s.proposals.len() {
            assert(t.proposals[i] == s.proposals[i]);
        }
    }
    assert forall|i: int| 0 <= i < t.proposals.len() implies (#[trigger] t.proposals[i]).title.len()
        > 0 && t.proposals[i].description.len() > 0 by {
        if i < s.proposals.len() {
            assert(t.proposals[i] == s.proposals[i]);
        }
    }
    assert forall|i: int| 0 <= i < t.voters.len() implies {
        &&& 0 <= (#[trigger] t.voters[i]).credits <= t.total_credits
        &&& t.total_credits - t.voters[i].credits == spent_by(t.votes, t.voters[i].id)
    } by {
        assert(t.voters[i] == s.voters[i]);
    }
}

/// No vote of a sound session is on a proposal that does not exist, so the
/// counts and the voters on such a proposal are none.
pub proof fn lemma_counts_nothing(s: SessionView, proposal_id: i32)
    requires
        s.wf(),
        !s.has_proposal(proposal_id),
    ensures
        counts_on(s.votes, proposal_id) == Seq::<VoteCount>::empty(),
        voters_on(s.votes, proposal_id) == Seq::<i32>::empty(),
{
    assert forall|i: int| 0 <= i < s.votes.len() implies (#[trigger] s.votes[i]).proposal_id
        != proposal_id by {
        assert(s.has_proposal(s.votes[i].proposal_id));
    }
    lemma_counts_none(s.votes, proposal_id);
}

/// A proposal of which no vote speaks has no counts and no voters.
pub proof fn lemma_counts_none(votes: Seq<Vote>, proposal_id: i32)
    requires
        forall|i: int| 0 <= i < votes.len() ==> (#[trigger] votes[i]).proposal_id != proposal_id,
    ensures
        counts_on(votes, proposal_id) == Seq::<VoteCount>::empty(),
        voters_on(votes, proposal_id) == Seq::<i32>::empty(),
    decreases votes.len(),
{
    if votes.len() > 0 {
        let rest = votes.drop_last();
        assert forall|i: int| 0 <= i < rest.len() implies (#[trigger] rest[i]).proposal_id
            != proposal_id by {
            assert(rest[i] == votes[i]);
        }
        lemma_counts_none(rest, proposal_id);
        assert(votes.last() == votes[votes.len() - 1]);
    }
}

/// A voter who is not registered in a sound session has spent nothing.
pub proof fn lemma_stranger_spent_nothing(s: SessionView, voter_id: i32)
    requires
        s.wf(),
        !s.has_voter(voter_id),
    ensures
        spent_by(s.votes, voter_id) == 0,
{
    assert forall|i: int| 0 <= i < s.votes.len() implies (#[trigger] s.votes[i]).voter_id
        != voter_id by {
        assert(s.has_voter(s.votes[i].voter_id));
    }
    lemma_spent_nothing(s.votes, voter_id);
}

/// An accepted voter keeps the session sound.
pub proof fn lemma_with_voter_wf(s: SessionView, name: Seq<char>)
    requires
        s.wf(),
        s.next_voter_id < i32::MAX,
        s.voter_error(name) is None,
    ensures
        s.with_voter(name).wf(),
{
    let t = s.with_voter(name);
    assert forall|i: int| 0 <= i < t.votes.len() implies {
        &&& (#[trigger] t.votes[i]).credits_spent > 0
        &&& t.has_voter(t.votes[i].voter_id)
        &&& t.has_proposal(t.votes[i].proposal_id)
    } by {
        assert(s.has_voter(s.votes[i].voter_id));
        assert(s.has_proposal(s.votes[i].proposal_id));
    }
    assert forall|i: int| 0 <= i < t.voters.len() implies {
        &&& 0 <= (#[trigger] t.voters[i]).credits <= t.total_credits
        &&& t.total_credits - t.voters[i].credits == spent_by(t.votes, t.voters[i].id)
    } by {
        if i == s.voters.len() {
            lemma_stranger_spent_nothing(s, t.voters[i].id);
        } else {
            assert(t.voters[i] == s.voters[i]);
        }
    }
    assert forall|i: int| 0 <= i < t.voters.len() implies (#[trigger] t.voters[i]).id == i
        + 1 by {
        if i < s.voters.len() {
            assert(t.voters[i] == s.voters[i]);
        }
    }
    assert forall|i: int| 0 <= i < t.voters.len() implies (#[trigger] t.voters[i]).name.len()
        > 0 by {
        if i < s.voters.len() {
            assert(t.voters[i] == s.voters[i]);
        }
    }
    assert forall|i: int| 0 <= i < t.proposals.len() implies {
        &&& (#[trigger] t.proposals[i]).total_votes == counts_on(t.votes, t.proposals[i].id)
        &&& t.proposals[i].user_voted == voters_on(t.votes, t.proposals[i].id)
    } by {
        assert(t.proposals[i] == s.proposals[i]);
    }
}

/// An accepted vote keeps the session sound.
pub proof fn lemma_with_vote_wf(s: SessionView, voter_id: i32, proposal_id: i32, vote_credits: i32)
    requires
        s.wf(),
        s.vote_error(voter_id, proposal_id, vote_credits) is None,
    ensures
        s.with_vote(voter_id, proposal_id, vote_credits).wf(),
{
    let t = s.with_vote(voter_id, proposal_id, vote_credits);
    let vote = Vote { voter_id, proposal_id, credits_spent: vote_credits };
    lemma_has_voted(s, voter_id, proposal_id);
    lemma_recorded(s.votes, voter_id, proposal_id);
    assert forall|i: int| 0 <= i < t.proposals.len() implies (#[trigger] t.proposals[i]).id == i
        + 1 by {
        assert(s.proposals[i].id == i + 1);
    }
    assert forall|i: int| 0 <= i < t.voters.len() implies (#[trigger] t.voters[i]).id == i
        + 1 by {
        assert(s.voters[i].id == i + 1);
    }
    assert forall|i: int| 0 <= i < t.proposals.len() implies (#[trigger] t.proposals[i]).title.len()
        > 0 && t.proposals[i].description.len() > 0 by {
        assert(s.proposals[i].title.len() > 0);
    }
    assert forall|i: int| 0 <= i < t.voters.len() implies (#[trigger] t.voters[i]).name.len()
        > 0 by {
        assert(s.voters[i].name.len() > 0);
    }
    assert forall|i: int| 0 <= i < t.votes.len() implies {
        &&& (#[trigger] t.votes[i]).credits_spent > 0
        &&& t.has_voter(t.votes[i].voter_id)
        &&& t.has_proposal(t.votes[i].proposal_id)
    } by {
        if i < s.votes.len() {
            assert(t.votes[i] == s.votes[i]);
            assert(s.has_voter(s.votes[i].voter_id));
            assert(s.has_proposal(s.votes[i].proposal_id));
        }
    }
    assert forall|i: int, j: int| 0 <= i < j < t.votes.len() implies !((
    #[trigger] t.votes[i]).voter_id == (#[trigger] t.votes[j]).voter_id && t.votes[i].proposal_id
        == t.votes[j].proposal_id) by {
        assert(t.votes[i] == s.votes[i]);
        if j < s.votes.len() {
            assert(t.votes[j] == s.votes[j]);
        }
    }
    assert forall|i: int| 0 <= i < t.voters.len() implies {
        &&& 0 <= (#[trigger] t.voters[i]).credits <= t.total_credits
        &&& t.total_credits - t.voters[i].credits == spent_by(t.votes, t.voters[i].id)
    } by {
        assert(0 <= s.voters[i].credits <= s.total_credits);
        lemma_spent_push(s.votes, vote, s.voters[i].id);
    }
    assert forall|i: int| 0 <= i < t.proposals.len() implies {
        &&& (#[trigger] t.proposals[i]).total_votes == counts_on(t.votes, t.proposals[i].id)
        &&& t.proposals[i].user_voted == voters_on(t.votes, t.proposals[i].id)
    } by {
        assert(s.proposals[i].total_votes == counts_on(s.votes, s.proposals[i].id));
        assert(s.proposals[i].user_voted == voters_on(s.votes, s.proposals[i].id));
        lemma_counts_push(s.votes, vote, s.proposals[i].id);
    }
}

/// The ledger: in a sound session every voter's credits lie between nothing
/// and the budget, and what is missing from the budget is the sum of the
/// credits of their votes. One who is not registered has spent nothing.
pub proof fn lemma_ledger(s: SessionView, voter_id: i32)
    requires
        s.wf(),
    ensures
        0 <= spent_by(s.votes, voter_id) <= s.total_credits,
        s.has_voter(voter_id) ==> 0 <= s.voter(voter_id).credits <= s.total_credits
            && s.total_credits - s.voter(voter_id).credits == spent_by(s.votes, voter_id),
        !s.has_voter(voter_id) ==> spent_by(s.votes, voter_id) == 0,
{
    if s.has_voter(voter_id) {
        assert(s.voters[voter_id - 1].id == voter_id);
    } else {
        lemma_stranger_spent_nothing(s, voter_id);
    }
}

/// A session starts once: once started, it refuses to be started again,
/// and no accepted proposal, voter or vote changes whether it is started.
pub proof fn lemma_starts_once(
    s: SessionView,
    title: Seq<char>,
    description: Seq<char>,
    name: Seq<char>,
    voter_id: i32,
    proposal_id: i32,
    vote_credits: i32,
)
    ensures
        s.start_error() is None <==> !s.is_active,
        s.started().is_active,
        s.started().start_error() == Some(VotingError::AlreadyActive),
        s.with_proposal(title, description).is_active == s.is_active,
        s.with_voter(name).is_active == s.is_active,
        s.with_vote(voter_id, proposal_id, vote_credits).is_active == s.is_active,
{
}

/// Proposal identifiers count up from 1: the first proposal of a new session
/// gets 1, and each accepted proposal gets the successor of the one before,
/// which no proposal had until then.
pub proof fn lemma_proposal_identifiers(s: SessionView, title: Seq<char>, description: Seq<char>)
    requires
        s.wf(),
        s.next_proposal_id < i32::MAX,
        s.proposal_error(title, description) is None,
    ensures
        SessionView::created(s.total_credits).next_proposal_id == 0,
        s.with_proposal(title, description).next_proposal_id == s.next_proposal_id + 1,
        s.with_proposal(title, description).proposals.last().id == s.next_proposal_id + 1,
        s.with_proposal(title, description).proposals.len() == s.proposals.len() + 1,
        !s.has_proposal((s.next_proposal_id + 1) as i32),
        s.with_proposal(title, description).has_proposal((s.next_proposal_id + 1) as i32),
{
}

/// Voter identifiers count up from 1 in the same way, and the new voter
/// holds the whole budget.
pub proof fn lemma_voter_identifiers(s: SessionView, name: Seq<char>)
    requires
        s.wf(),
        s.next_voter_id < i32::MAX,
        s.voter_error(name) is None,
    ensures
        SessionView::created(s.total_credits).next_voter_id == 0,
        s.with_voter(name).next_voter_id == s.next_voter_id + 1,
        s.with_voter(name).voters.last().id == s.next_voter_id + 1,
        s.with_voter(name).voters.last().credits == s.total_credits,
        !s.has_voter((s.next_voter_id + 1) as i32),
        s.with_voter(name).has_voter((s.next_voter_id + 1) as i32),
{
}

/// In a sound session the tally of every proposal holds exactly the counts
/// of the votes cast on it, in the order in which they were cast, and its
/// list of voters those who cast them.
pub proof fn lemma_tally(s: SessionView, proposal_id: i32)
    requires
        s.wf(),
        s.has_proposal(proposal_id),
    ensures
        s.proposal(proposal_id).total_votes == counts_on(s.votes, proposal_id),
        s.proposal(proposal_id).user_voted == voters_on(s.votes, proposal_id),
{
    assert(s.proposals[proposal_id - 1].id == proposal_id);
}

/// Once a voter's vote on a proposal is accepted, any further vote of theirs
/// on it is refused, whatever it would spend: as already cast, where the
/// credits offered are positive and within what the voter has left.
pub proof fn lemma_votes_once(
    s: SessionView,
    voter_id: i32,
    proposal_id: i32,
    first_credits: i32,
    second_credits: i32,
)
    requires
        s.wf(),
        s.vote_error(voter_id, proposal_id, first_credits) is None,
    ensures
        s.with_vote(voter_id, proposal_id, first_credits).vote_error(
            voter_id,
            proposal_id,
            second_credits,
        ) is Some,
        0 < second_credits <= s.voter(voter_id).credits - first_credits ==> s.with_vote(
            voter_id,
            proposal_id,
            first_credits,
        ).vote_error(voter_id, proposal_id, second_credits) == Some(VotingError::AlreadyVoted),
{
    let t = s.with_vote(voter_id, proposal_id, first_credits);
    let listed = t.proposal(proposal_id).user_voted;
    assert(listed[listed.len() - 1] == voter_id);
}

/// After a vote is accepted, asking for the voter's votes on the proposal
/// gives the square root of exactly the credits that the vote spent, and the
/// voter has that many credits less.
pub proof fn lemma_vote_round_trip(
    s: SessionView,
    voter_id: i32,
    proposal_id: i32,
    vote_credits: i32,
)
    requires
        s.wf(),
        s.vote_error(voter_id, proposal_id, vote_credits) is None,
    ensures
        s.with_vote(voter_id, proposal_id, vote_credits).voter_votes(voter_id, proposal_id) == Ok::<
            VoteCount,
            VotingError,
        >(VoteCount { credits: vote_credits }),
        s.with_vote(voter_id, proposal_id, vote_credits).voter(voter_id).credits == s.voter(
            voter_id,
        ).credits - vote_credits,
        s.voter_votes(voter_id, proposal_id) == Err::<VoteCount, VotingError>(
            VotingError::VoteNotFound,
        ),
{
    let t = s.with_vote(voter_id, proposal_id, vote_credits);
    lemma_has_voted(s, voter_id, proposal_id);
    assert(t.votes[t.votes.len() - 1].voter_id == voter_id);
    assert(0 <= s.voters[voter_id - 1].credits);
}

} // verus!
