use quadratic_voting_rs::{Session, Vote, VoteCount, VotingError};

fn count_value(count: VoteCount) -> f64 {
    (count.credits as f64).sqrt()
}

fn two_proposals_and_joe() -> Session {
    let mut session = Session::create_session(100);
    assert_eq!(session.add_proposal("A".to_string(), "first".to_string()), Ok(1));
    assert_eq!(session.add_proposal("B".to_string(), "second".to_string()), Ok(2));
    assert_eq!(session.register_voter("Joe".to_string()), Ok(1));
    session
}

#[test]
fn start_succeeds_once() {
    let mut session = Session::create_session(100);
    assert_eq!(session.start_session(), Ok(()));
    assert_eq!(session.start_session(), Err(VotingError::AlreadyActive));
    assert_eq!(session.is_active, true);
    assert_eq!(session.register_voter("Joe".to_string()), Ok(1));
    assert_eq!(session.start_session(), Err(VotingError::AlreadyActive));
    assert_eq!(session.is_active, true);
}

#[test]
fn proposal_identifiers_count_up_from_one() {
    let mut session = Session::create_session(10);
    assert_eq!(session.add_proposal("A".to_string(), "a".to_string()), Ok(1));
    assert_eq!(session.add_proposal("".to_string(), "a".to_string()), Err(VotingError::InvalidInput));
    assert_eq!(session.add_proposal("B".to_string(), "".to_string()), Err(VotingError::InvalidInput));
    assert_eq!(session.next_proposal_id, 1);
    assert_eq!(session.add_proposal("B".to_string(), "b".to_string()), Ok(2));
    assert_eq!(session.add_proposal("C".to_string(), "c".to_string()), Ok(3));
    assert_eq!(session.proposals[0].id, 1);
    assert_eq!(session.proposals[1].id, 2);
    assert_eq!(session.proposals[2].id, 3);
    assert_eq!(session.proposals[1].title, "B");
    assert_eq!(session.proposals[1].description, "b");
}

#[test]
fn empty_title_is_refused_and_changes_nothing() {
    let mut session = Session::create_session(100);
    assert_eq!(session.add_proposal("".to_string(), "x".to_string()), Err(VotingError::InvalidInput));
    assert_eq!(session.proposals.len(), 0);
    assert_eq!(session.next_proposal_id, 0);
    assert_eq!(session.add_proposal("A".to_string(), "x".to_string()), Ok(1));
}

#[test]
fn started_session_takes_no_proposal() {
    let mut session = Session::create_session(100);
    assert_eq!(session.add_proposal("A".to_string(), "a".to_string()), Ok(1));
    assert_eq!(session.start_session(), Ok(()));
    assert_eq!(
        session.add_proposal("B".to_string(), "b".to_string()),
        Err(VotingError::SessionAlreadyActive)
    );
    assert_eq!(
        session.add_proposal("".to_string(), "".to_string()),
        Err(VotingError::SessionAlreadyActive)
    );
    assert_eq!(session.proposals.len(), 1);
    assert_eq!(session.next_proposal_id, 1);
}

#[test]
fn voters_start_with_the_budget() {
    let mut session = Session::create_session(75);
    assert_eq!(session.register_voter("Joe".to_string()), Ok(1));
    assert_eq!(session.register_voter("".to_string()), Err(VotingError::InvalidInput));
    assert_eq!(session.next_voter_id, 1);
    assert_eq!(session.voters.len(), 1);
    assert_eq!(session.register_voter("Joe".to_string()), Ok(2));
    assert_eq!(session.voters[0].id, 1);
    assert_eq!(session.voters[1].id, 2);
    assert_eq!(session.voters[0].credits, 75);
    assert_eq!(session.voters[1].credits, 75);
    assert_eq!(session.voters[1].name, "Joe");
    assert!(session.voter(3).is_none());
    assert!(session.voter(0).is_none());
    assert_eq!(session.voter(2).unwrap().id, 2);
    assert!(session.proposal(1).is_none());
}

#[test]
fn accepted_vote_is_recorded() {
    let mut session = two_proposals_and_joe();
    assert_eq!(session.vote(1, 1, 36), Ok(()));
    let count = session.get_voter_votes(1, 1).unwrap();
    assert_eq!(count, VoteCount { credits: 36 });
    assert_eq!(count_value(count), 6.0);
    assert_eq!(session.voters[0].credits, 64);
    assert_eq!(session.voter(1).unwrap().credits, 64);
    assert_eq!(
        session.votes,
        vec![Vote { voter_id: 1, proposal_id: 1, credits_spent: 36 }]
    );
    assert_eq!(session.votes[0].vote_count(), VoteCount { credits: 36 });
    assert_eq!(session.proposals[0].total_votes, vec![VoteCount { credits: 36 }]);
    assert_eq!(session.proposals[0].user_voted, vec![1]);
    assert!(session.proposals[0].has_voted(1));
    assert!(!session.proposals[1].has_voted(1));
    assert!(session.proposals[1].total_votes.is_empty());
    assert_eq!(session.proposal(2).unwrap().title, "B");
    assert_eq!(session.find_vote(1, 1), Some(Vote { voter_id: 1, proposal_id: 1, credits_spent: 36 }));
    assert_eq!(session.find_vote(1, 2), None);
}

#[test]
fn vote_beyond_credits_is_refused() {
    let mut session = two_proposals_and_joe();
    assert_eq!(session.vote(1, 1, 200), Err(VotingError::InsufficientCredits));
    assert_eq!(session.voters[0].credits, 100);
    assert_eq!(session.votes.len(), 0);
    assert_eq!(session.vote(1, 1, 101), Err(VotingError::InsufficientCredits));
    assert_eq!(session.vote(1, 1, 100), Ok(()));
    assert_eq!(session.voters[0].credits, 0);
    assert_eq!(session.vote(1, 2, 1), Err(VotingError::InsufficientCredits));
}

#[test]
fn vote_on_missing_proposal_is_refused() {
    let mut session = two_proposals_and_joe();
    assert_eq!(session.vote(1, 99, 10), Err(VotingError::ProposalNotFound));
    assert_eq!(session.vote(1, 0, 10), Err(VotingError::ProposalNotFound));
    assert_eq!(session.vote(1, -1, 10), Err(VotingError::ProposalNotFound));
    assert_eq!(session.vote(7, 99, 0), Err(VotingError::ProposalNotFound));
    assert_eq!(session.voters[0].credits, 100);
}

#[test]
fn vote_of_unknown_voter_is_refused() {
    let mut session = two_proposals_and_joe();
    assert_eq!(session.vote(2, 1, 10), Err(VotingError::NotARegisteredVoter));
    assert_eq!(session.vote(0, 1, 10), Err(VotingError::NotARegisteredVoter));
    assert_eq!(session.vote(-3, 2, 0), Err(VotingError::NotARegisteredVoter));
    assert_eq!(session.votes.len(), 0);
}

#[test]
fn vote_without_credits_is_refused() {
    let mut session = two_proposals_and_joe();
    assert_eq!(session.vote(1, 1, 0), Err(VotingError::NonPositiveCredits));
    assert_eq!(session.vote(1, 1, -5), Err(VotingError::NonPositiveCredits));
    assert_eq!(session.voters[0].credits, 100);
    assert_eq!(session.votes.len(), 0);
}

#[test]
fn second_vote_is_refused() {
    let mut session = two_proposals_and_joe();
    assert_eq!(session.vote(1, 1, 36), Ok(()));
    assert_eq!(session.vote(1, 1, 10), Err(VotingError::AlreadyVoted));
    assert_eq!(session.voters[0].credits, 64);
    assert_eq!(session.votes.len(), 1);
    assert_eq!(session.proposals[0].total_votes.len(), 1);
    assert_eq!(session.vote(1, 1, 64), Err(VotingError::AlreadyVoted));
    assert_eq!(session.vote(1, 1, 65), Err(VotingError::InsufficientCredits));
    assert_eq!(session.vote(1, 1, 0), Err(VotingError::NonPositiveCredits));
    assert_eq!(session.voters[0].credits, 64);
    assert_eq!(session.vote(1, 2, 64), Ok(()));
    assert_eq!(session.voters[0].credits, 0);
}

#[test]
fn votes_are_taken_before_the_start() {
    let mut session = two_proposals_and_joe();
    assert_eq!(session.is_active, false);
    assert_eq!(session.vote(1, 2, 4), Ok(()));
    assert_eq!(session.start_session(), Ok(()));
    assert_eq!(session.vote(1, 1, 9), Ok(()));
    assert_eq!(session.voters[0].credits, 87);
}

#[test]
fn missing_vote_is_not_reported_as_nothing() {
    let mut session = two_proposals_and_joe();
    assert_eq!(session.get_voter_votes(1, 1), Err(VotingError::VoteNotFound));
    assert_eq!(session.vote(1, 1, 2), Ok(()));
    assert_eq!(session.get_voter_votes(1, 2), Err(VotingError::VoteNotFound));
    assert_eq!(session.get_voter_votes(2, 1), Err(VotingError::VoteNotFound));
    assert_eq!(count_value(session.get_voter_votes(1, 1).unwrap()), 2.0_f64.sqrt());
}

#[test]
fn credits_spent_balance_the_ledger() {
    let mut session = two_proposals_and_joe();
    assert_eq!(session.register_voter("Jane".to_string()), Ok(2));
    assert_eq!(session.get_voter_total_credits_spent(1), 0);
    assert_eq!(session.vote(1, 1, 36), Ok(()));
    assert_eq!(session.vote(2, 1, 50), Ok(()));
    assert_eq!(session.vote(1, 2, 14), Ok(()));
    assert_eq!(session.get_voter_total_credits_spent(1), 50);
    assert_eq!(session.get_voter_total_credits_spent(2), 50);
    assert_eq!(session.get_voter_total_credits_spent(3), 0);
    for voter in &session.voters {
        assert!(0 <= voter.credits && voter.credits <= session.total_credits);
        assert_eq!(
            session.total_credits - voter.credits,
            session.get_voter_total_credits_spent(voter.id)
        );
    }
    assert_eq!(
        session.proposals[0].total_votes,
        vec![VoteCount { credits: 36 }, VoteCount { credits: 50 }]
    );
    assert_eq!(session.proposals[0].user_voted, vec![1, 2]);
    assert_eq!(session.proposals[1].total_votes, vec![VoteCount { credits: 14 }]);
}

#[test]
fn every_failure_has_its_message() {
    assert_eq!(VotingError::AlreadyActive.message(), "Session is already active");
    assert_eq!(
        VotingError::SessionAlreadyActive.message(),
        "Cannot add proposal after session has started"
    );
    assert_eq!(
        VotingError::InvalidInput.message(),
        "Title, description and name cannot be empty"
    );
    assert_eq!(VotingError::ProposalNotFound.message(), "Proposal not found");
    assert_eq!(VotingError::NotARegisteredVoter.message(), "You are not a voter");
    assert_eq!(
        VotingError::InsufficientCredits.message(),
        "You don't have enough credits to vote"
    );
    assert_eq!(VotingError::NonPositiveCredits.message(), "You cannot vote with zero credits");
    assert_eq!(VotingError::AlreadyVoted.message(), "You have already voted");
    assert_eq!(VotingError::VoteNotFound.message(), "No such vote was cast");
}
