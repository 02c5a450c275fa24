use voting::{Identity, Ledger, Poll, PollCounter, VoteRecord, VotingError};

fn id(key: u64) -> Identity {
    Identity { key }
}

fn yes_no() -> Vec<String> {
    vec!["Yes".to_string(), "No".to_string()]
}

#[test]
fn scenario_yes_no_poll() {
    let creator = id(1);
    let alice = id(2);
    let bob = id(3);
    let mut ledger = Ledger::new();

    let created = ledger.initialize_poll(
        "Best answer?".to_string(),
        "Pick one".to_string(),
        yes_no(),
        100,
        200,
        creator,
        50,
    );
    assert_eq!(created, Ok(0));

    // Exactly at start_time: accepted.
    assert_eq!(ledger.vote(0, 0, alice, 100), Ok(()));
    let poll = ledger.get_poll(0).unwrap();
    assert_eq!(poll.votes, vec![1, 0]);
    assert_eq!(poll.total_votes, 1);

    // Same voter again: rejected, tally untouched.
    assert_eq!(ledger.vote(0, 1, alice, 150), Err(VotingError::AlreadyVoted));
    let poll = ledger.get_poll(0).unwrap();
    assert_eq!(poll.votes, vec![1, 0]);
    assert_eq!(poll.total_votes, 1);

    // Different voter, exactly at end_time: accepted.
    assert_eq!(ledger.vote(0, 1, bob, 200), Ok(()));
    let poll = ledger.get_poll(0).unwrap();
    assert_eq!(poll.votes, vec![1, 1]);
    assert_eq!(poll.total_votes, 2);

    // One instant past the window: rejected.
    assert_eq!(ledger.vote(0, 0, id(4), 201), Err(VotingError::PollEnded));
    assert_eq!(ledger.get_poll(0).unwrap().total_votes, 2);
}

#[test]
fn eleven_options_rejected_and_nothing_persisted() {
    let mut ledger = Ledger::new();
    let options: Vec<String> = (0..11).map(|i| format!("option {}", i)).collect();
    let created = ledger.initialize_poll(
        "Too wide".to_string(),
        "Eleven choices".to_string(),
        options,
        100,
        200,
        id(1),
        50,
    );
    assert_eq!(created, Err(VotingError::TooManyOptions));
    assert_eq!(ledger.poll_count(), 0);
    assert!(ledger.get_poll(0).is_none());
}

#[test]
fn second_closure_succeeds_and_stays_closed() {
    let creator = id(1);
    let mut ledger = Ledger::new();
    ledger
        .initialize_poll(
            "t".to_string(),
            "d".to_string(),
            yes_no(),
            100,
            200,
            creator,
            50,
        )
        .unwrap();
    assert_eq!(ledger.close_poll(0, creator), Ok(()));
    assert!(!ledger.get_poll(0).unwrap().is_active);
    // Closure is idempotent: a second request by the creator passes too
    // and the poll simply stays closed.
    assert_eq!(ledger.close_poll(0, creator), Ok(()));
    assert!(!ledger.get_poll(0).unwrap().is_active);
}

#[test]
fn monotonic_ids_without_gaps() {
    let mut ledger = Ledger::new();
    for n in 0..3 {
        let created = ledger.initialize_poll(
            format!("poll {}", n),
            "d".to_string(),
            yes_no(),
            100,
            200,
            id(1),
            50,
        );
        assert_eq!(created, Ok(n));
    }
    assert_eq!(ledger.poll_count(), 3);
    for n in 0..3 {
        assert_eq!(ledger.get_poll(n).unwrap().poll_id, n);
    }
    // A failed creation does not advance the counter.
    let failed = ledger.initialize_poll(
        "t".to_string(),
        "d".to_string(),
        vec!["only one".to_string()],
        100,
        200,
        id(1),
        50,
    );
    assert_eq!(failed, Err(VotingError::NotEnoughOptions));
    assert_eq!(ledger.poll_count(), 3);
}

#[test]
fn title_too_long_rejected() {
    let mut ledger = Ledger::new();
    let title: String = "x".repeat(101);
    let created = ledger.initialize_poll(title, "d".to_string(), yes_no(), 100, 200, id(1), 50);
    assert_eq!(created, Err(VotingError::TitleTooLong));
    assert_eq!(ledger.poll_count(), 0);
}

#[test]
fn title_at_limit_accepted() {
    let mut ledger = Ledger::new();
    let title: String = "x".repeat(100);
    let created = ledger.initialize_poll(title, "d".to_string(), yes_no(), 100, 200, id(1), 50);
    assert_eq!(created, Ok(0));
}

#[test]
fn description_too_long_rejected() {
    let mut ledger = Ledger::new();
    let description: String = "y".repeat(501);
    let created =
        ledger.initialize_poll("t".to_string(), description, yes_no(), 100, 200, id(1), 50);
    assert_eq!(created, Err(VotingError::DescriptionTooLong));
}

#[test]
fn option_too_long_rejected() {
    let mut ledger = Ledger::new();
    let options = vec!["ok".to_string(), "z".repeat(51)];
    let created =
        ledger.initialize_poll("t".to_string(), "d".to_string(), options, 100, 200, id(1), 50);
    assert_eq!(created, Err(VotingError::OptionTooLong));
}

#[test]
fn empty_or_reversed_window_rejected() {
    let mut ledger = Ledger::new();
    let created =
        ledger.initialize_poll("t".to_string(), "d".to_string(), yes_no(), 200, 200, id(1), 50);
    assert_eq!(created, Err(VotingError::InvalidTimeRange));
    let created =
        ledger.initialize_poll("t".to_string(), "d".to_string(), yes_no(), 300, 200, id(1), 50);
    assert_eq!(created, Err(VotingError::InvalidTimeRange));
}

#[test]
fn window_already_over_rejected() {
    let mut ledger = Ledger::new();
    // end_time must lie strictly after the creation-time clock.
    let created =
        ledger.initialize_poll("t".to_string(), "d".to_string(), yes_no(), 100, 200, id(1), 200);
    assert_eq!(created, Err(VotingError::InvalidTimeRange));
    let created =
        ledger.initialize_poll("t".to_string(), "d".to_string(), yes_no(), 100, 200, id(1), 199);
    assert_eq!(created, Ok(0));
}

#[test]
fn vote_before_start_rejected() {
    let mut ledger = Ledger::new();
    ledger
        .initialize_poll("t".to_string(), "d".to_string(), yes_no(), 100, 200, id(1), 50)
        .unwrap();
    assert_eq!(ledger.vote(0, 0, id(2), 99), Err(VotingError::PollNotStarted));
    assert_eq!(ledger.get_poll(0).unwrap().total_votes, 0);
}

#[test]
fn invalid_option_index_rejected() {
    let mut ledger = Ledger::new();
    ledger
        .initialize_poll("t".to_string(), "d".to_string(), yes_no(), 100, 200, id(1), 50)
        .unwrap();
    assert_eq!(ledger.vote(0, 2, id(2), 150), Err(VotingError::InvalidOptionIndex));
    assert_eq!(ledger.get_poll(0).unwrap().total_votes, 0);
}

#[test]
fn vote_in_missing_poll_rejected() {
    let mut ledger = Ledger::new();
    assert_eq!(ledger.vote(7, 0, id(2), 150), Err(VotingError::PollNotActive));
}

#[test]
fn vote_in_closed_poll_rejected() {
    let creator = id(1);
    let mut ledger = Ledger::new();
    ledger
        .initialize_poll("t".to_string(), "d".to_string(), yes_no(), 100, 200, creator, 50)
        .unwrap();
    assert_eq!(ledger.close_poll(0, creator), Ok(()));
    assert_eq!(ledger.vote(0, 0, id(2), 150), Err(VotingError::PollNotActive));
}

#[test]
fn close_by_non_creator_rejected() {
    let mut ledger = Ledger::new();
    ledger
        .initialize_poll("t".to_string(), "d".to_string(), yes_no(), 100, 200, id(1), 50)
        .unwrap();
    assert_eq!(ledger.close_poll(0, id(2)), Err(VotingError::UnauthorizedClose));
    assert!(ledger.get_poll(0).unwrap().is_active);
}

#[test]
fn close_missing_poll_rejected() {
    let mut ledger = Ledger::new();
    assert_eq!(ledger.close_poll(3, id(1)), Err(VotingError::PollNotActive));
}

#[test]
fn receipts_record_the_vote() {
    let mut ledger = Ledger::new();
    ledger
        .initialize_poll("t".to_string(), "d".to_string(), yes_no(), 100, 200, id(1), 50)
        .unwrap();
    assert!(!ledger.find_receipt(0, id(2)));
    ledger.vote(0, 1, id(2), 150).unwrap();
    assert!(ledger.find_receipt(0, id(2)));
    assert!(!ledger.find_receipt(0, id(3)));
    let receipt: &VoteRecord = &ledger.receipts[0];
    assert_eq!(receipt.poll_id, 0);
    assert_eq!(receipt.voter, id(2));
    assert_eq!(receipt.option_index, 1);
    assert_eq!(receipt.timestamp, 150);
}

#[test]
fn poll_fields_are_stored_as_given() {
    let mut ledger = Ledger::new();
    ledger
        .initialize_poll(
            "Lunch".to_string(),
            "Where to?".to_string(),
            vec!["Soup".to_string(), "Salad".to_string(), "Stew".to_string()],
            1_000,
            2_000,
            id(9),
            500,
        )
        .unwrap();
    let poll: &Poll = ledger.get_poll(0).unwrap();
    assert_eq!(poll.poll_id, 0);
    assert_eq!(poll.creator, id(9));
    assert_eq!(poll.title, "Lunch");
    assert_eq!(poll.description, "Where to?");
    assert_eq!(poll.options, vec!["Soup", "Salad", "Stew"]);
    assert_eq!(poll.votes, vec![0, 0, 0]);
    assert_eq!(poll.start_time, 1_000);
    assert_eq!(poll.end_time, 2_000);
    assert!(poll.is_active);
    assert_eq!(poll.total_votes, 0);
}

#[test]
fn storage_sizes_are_exact() {
    // Fixed overhead plus full title and description capacity plus one
    // option slot and one tally entry per option.
    assert_eq!(Poll::space(2), 8 + 8 + 32 + 104 + 504 + 4 + 2 * 54 + 4 + 2 * 8 + 8 + 8 + 1 + 8 + 1);
    assert_eq!(Poll::space(2), 814);
    assert_eq!(Poll::space(10), 1310);
    assert_eq!(Poll::space(0), 690);
    assert_eq!(VoteRecord::SPACE, 58);
    assert_eq!(PollCounter::SPACE, 17);
}
