use quadratic_voting_rs::{Proposal, Session, Vote, VoteCount, Voter};

fn voted_session() -> Session {
    let mut session = Session::create_session(100);
    assert_eq!(session.add_proposal("A".to_string(), "first".to_string()), Ok(1));
    assert_eq!(session.add_proposal("B".to_string(), "second".to_string()), Ok(2));
    assert_eq!(session.register_voter("Joe".to_string()), Ok(1));
    assert_eq!(session.register_voter("Jane".to_string()), Ok(2));
    assert_eq!(session.vote(1, 1, 36), Ok(()));
    assert_eq!(session.vote(2, 1, 9), Ok(()));
    assert_eq!(session.vote(1, 2, 64), Ok(()));
    session
}

#[test]
fn sessions_made_by_the_operations_are_sound() {
    let mut session = Session::create_session(100);
    assert!(session.is_sound());
    assert_eq!(session.add_proposal("A".to_string(), "first".to_string()), Ok(1));
    assert!(session.is_sound());
    assert_eq!(session.register_voter("Joe".to_string()), Ok(1));
    assert!(session.is_sound());
    assert_eq!(session.start_session(), Ok(()));
    assert!(session.is_sound());
    assert_eq!(session.vote(1, 1, 36), Ok(()));
    assert!(session.is_sound());
    assert!(session.vote(1, 1, 36).is_err());
    assert!(session.is_sound());
    assert!(voted_session().is_sound());
}

#[test]
fn budget_must_be_positive() {
    let mut session = voted_session();
    session.total_credits = 0;
    assert!(!session.is_sound());
    let empty = Session {
        total_credits: -1,
        proposals: vec![],
        voters: vec![],
        next_voter_id: 0,
        next_proposal_id: 0,
        votes: vec![],
        is_active: false,
    };
    assert!(!empty.is_sound());
}

#[test]
fn identifiers_must_be_in_order() {
    let mut session = voted_session();
    session.next_voter_id = 3;
    assert!(!session.is_sound());

    let mut session = voted_session();
    session.next_proposal_id = 1;
    assert!(!session.is_sound());

    let mut session = voted_session();
    session.proposals[1].id = 3;
    assert!(!session.is_sound());

    let mut session = voted_session();
    session.voters[0].id = 2;
    assert!(!session.is_sound());
}

#[test]
fn texts_must_be_filled() {
    let mut session = voted_session();
    session.voters[1].name = String::new();
    assert!(!session.is_sound());

    let mut session = voted_session();
    session.proposals[0].title = String::new();
    assert!(!session.is_sound());

    let mut session = voted_session();
    session.proposals[1].description = String::new();
    assert!(!session.is_sound());
}

#[test]
fn votes_must_be_sound() {
    let mut session = voted_session();
    session.votes[0].voter_id = 3;
    assert!(!session.is_sound());

    let mut session = voted_session();
    session.votes[0].proposal_id = 0;
    assert!(!session.is_sound());

    let mut session = voted_session();
    session.votes[1].credits_spent = 0;
    session.voters[1].credits = 100;
    session.proposals[0].total_votes[1] = VoteCount { credits: 0 };
    assert!(!session.is_sound());

    let mut session = voted_session();
    session.votes.push(Vote { voter_id: 2, proposal_id: 1, credits_spent: 1 });
    session.voters[1].credits = 90;
    session.proposals[0].total_votes.push(VoteCount { credits: 1 });
    session.proposals[0].user_voted.push(2);
    assert!(!session.is_sound());
}

#[test]
fn ledger_must_balance() {
    let mut session = voted_session();
    session.voters[0].credits = 1;
    assert!(!session.is_sound());

    let mut session = voted_session();
    session.voters[1].credits = 101;
    assert!(!session.is_sound());

    let mut session = voted_session();
    session.voters[1].credits = -1;
    assert!(!session.is_sound());

    let mut session = voted_session();
    session.votes[1].credits_spent = 10;
    session.proposals[0].total_votes[1] = VoteCount { credits: 10 };
    assert!(!session.is_sound());
    session.voters[1].credits = 90;
    assert!(session.is_sound());
}

#[test]
fn tallies_must_match() {
    let mut session = voted_session();
    session.proposals[0].total_votes[0] = VoteCount { credits: 9 };
    assert!(!session.is_sound());

    let mut session = voted_session();
    session.proposals[0].total_votes.pop();
    assert!(!session.is_sound());

    let mut session = voted_session();
    session.proposals[1].total_votes.push(VoteCount { credits: 1 });
    assert!(!session.is_sound());

    let mut session = voted_session();
    session.proposals[0].user_voted = vec![2, 1];
    assert!(!session.is_sound());

    let mut session = voted_session();
    session.proposals[1].user_voted.clear();
    assert!(!session.is_sound());

    let by_hand = Session {
        total_credits: 10,
        proposals: vec![Proposal {
            id: 1,
            title: "A".to_string(),
            description: "first".to_string(),
            total_votes: vec![VoteCount { credits: 4 }],
            user_voted: vec![1],
        }],
        voters: vec![Voter { id: 1, name: "Joe".to_string(), credits: 6 }],
        next_voter_id: 1,
        next_proposal_id: 1,
        votes: vec![Vote { voter_id: 1, proposal_id: 1, credits_spent: 4 }],
        is_active: true,
    };
    assert!(by_hand.is_sound());
    assert!(by_hand.has_voter(1));
    assert!(!by_hand.has_voter(2));
    assert!(by_hand.has_proposal(1));
    assert!(!by_hand.has_proposal(0));
}
