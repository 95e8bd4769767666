use chrono::{DateTime, Utc};
use fake::faker::chrono::en::{DateTimeAfter, DateTimeBefore};
use fake::faker::lorem::en::Sentence;
use fake::Fake;
use poll_api::domain::{
    CreatedPoll, NewPoll, NewPollChoice, Poll, PollChoice, PollResults, PollVote, Timestamp, VotePath,
};
use poll_api::errors::{ErrorBody, HttpError};
use poll_api::helpers::IpNetwork;
use poll_api::repositories::{create_new_poll_and_choices, CreateAction, CreateEvent, CreatePollFlow};
use poll_api::routes::{
    create_poll, get_poll, get_poll_results, vote_poll, ResultsAction, ResultsEvent, StoreFailure,
    VoteAction, VoteEvent,
};
use uuid::Uuid;

fn stamp(dt: DateTime<Utc>) -> Timestamp {
    Timestamp { secs: dt.timestamp(), nanos: dt.timestamp_subsec_nanos() }
}

fn generate_poll(number_of_choices: usize, in_past: bool) -> NewPoll {
    let fake_sentence = Sentence(5..8);

    let choices = (0..number_of_choices)
        .map(|_| NewPollChoice {
            name: fake_sentence.fake(),
        })
        .collect();

    let end_date: DateTime<Utc> = match in_past {
        true => DateTimeBefore(Utc::now()).fake(),
        false => DateTimeAfter(Utc::now()).fake(),
    };

    NewPoll {
        name: fake_sentence.fake(),
        description: fake_sentence.fake(),
        end_date: stamp(end_date),
        choices,
    }
}

/// Runs a creation to its end with a store that succeeds at every step.
fn finish_creation(mut flow: CreatePollFlow, mut action: CreateAction, poll_id: u128) -> Result<CreatedPoll, HttpError> {
    loop {
        let event = match action {
            CreateAction::BeginTransaction => CreateEvent::TransactionBegun,
            CreateAction::InsertPoll => CreateEvent::PollInserted { poll_id },
            CreateAction::InsertChoices { .. } => CreateEvent::ChoicesInserted,
            CreateAction::Commit => CreateEvent::Committed,
            CreateAction::Respond(r) => return r,
        };
        let (f, a) = flow.step(event);
        flow = f;
        action = a;
    }
}

/// The poll that the store holds after creating `new_poll` as `id`.
fn stored_poll(id: u128, new_poll: &NewPoll, start: Timestamp) -> Poll {
    Poll {
        id,
        name: new_poll.name.clone(),
        description: new_poll.description.clone(),
        created_at: start,
        end_date: new_poll.end_date,
        choices: new_poll
            .choices
            .iter()
            .map(|c| PollChoice { id: Uuid::new_v4().as_u128(), name: c.name.clone(), created_at: start })
            .collect(),
    }
}

/// Runs a vote against a poll and the votes already cast, recording the new
/// vote where it is accepted.
fn cast_vote(poll: &Poll, choice: u128, remote: &str, votes: &mut Vec<(u128, IpNetwork)>) -> Result<(), HttpError> {
    let (mut flow, mut action) = vote_poll(VotePath { id: poll.id, choice }, Some(remote.to_string()));
    loop {
        let event = match action {
            VoteAction::FetchPoll { poll_id } => {
                assert_eq!(poll_id, poll.id);
                VoteEvent::PollFetched(Some(poll.clone()))
            }
            VoteAction::FetchExistingVote { poll_id, ip } => {
                let found = votes.iter().any(|(p, i)| *p == poll_id && *i == ip);
                let existing = if found {
                    Some(PollVote { id: 1, poll_id, choice_id: choice, created_at: stamp(Utc::now()) })
                } else {
                    None
                };
                VoteEvent::ExistingVoteFetched(existing)
            }
            VoteAction::InsertVote { poll_id, ip, .. } => {
                votes.push((poll_id, ip));
                VoteEvent::VoteInserted
            }
            VoteAction::Respond(r) => return r,
        };
        let (f, a) = flow.step(event);
        flow = f;
        action = a;
    }
}

fn poll_results(poll: Option<&Poll>, results: Vec<PollResults>) -> Result<Vec<PollResults>, HttpError> {
    let (mut flow, mut action) = get_poll_results(poll.map(|p| p.id).unwrap_or(9));
    let mut results = Some(results);
    loop {
        let event = match action {
            ResultsAction::FetchPoll { .. } => ResultsEvent::PollFetched(poll.cloned()),
            ResultsAction::FetchResults { .. } => ResultsEvent::ResultsFetched(results.take().unwrap()),
            ResultsAction::Respond(r) => return r,
        };
        let (f, a) = flow.step(event);
        flow = f;
        action = a;
    }
}

fn created(new_poll: NewPoll) -> (Poll, CreatedPoll) {
    let id = Uuid::new_v4().as_u128();
    let start = stamp(Utc::now());
    let poll = stored_poll(id, &new_poll, start);
    let (flow, action) = create_poll(new_poll);
    let c = finish_creation(flow, action, id).unwrap();
    (poll, c)
}

fn past_election(new_poll: NewPoll) -> Poll {
    let id = Uuid::new_v4().as_u128();
    let start = Timestamp { secs: new_poll.end_date.secs - 3600, nanos: 0 };
    let poll = stored_poll(id, &new_poll, start);
    let (flow, action) = create_new_poll_and_choices(new_poll, start);
    finish_creation(flow, action, id).unwrap();
    poll
}

#[test]
fn fails_if_no_choices_provided() {
    let poll = generate_poll(0, false);
    let (_, action) = create_poll(poll);
    match action {
        CreateAction::Respond(Err(e)) => assert_eq!(e.status_code() / 100, 4),
        other => panic!("unexpected {:?}", other),
    }
}

#[test]
fn fails_if_end_date_in_past() {
    let mut poll = generate_poll(3, false);
    poll.end_date = stamp(DateTimeBefore(Utc::now()).fake());

    let (_, action) = create_poll(poll);
    let err = match action {
        CreateAction::Respond(Err(e)) => e,
        other => panic!("unexpected {:?}", other),
    };
    let response = err.error_response();
    assert_eq!(response.status, 400);

    let body = match response.body {
        ErrorBody::Validation(b) => b,
        other => panic!("unexpected {:?}", other),
    };
    let field_error = body.field_errors.first().unwrap();

    assert_eq!(field_error.field, "end_date");
}

#[test]
fn successfully_create_a_poll() {
    let poll = generate_poll(3, false);
    let name = poll.name.clone();
    let (_, c) = created(poll);
    assert_eq!(c.name, name);
}

#[test]
fn returns_a_128_bit_uuid() {
    let (_, c) = created(generate_poll(3, false));
    assert_eq!(Uuid::from_u128(c.id).to_string().len(), 36);
}

#[test]
fn fails_to_get_non_existent_poll() {
    let err = get_poll(Ok(None)).unwrap_err();
    assert_eq!(err.status_code(), 404);
    assert_eq!(err, HttpError::NotFoundError("The requested poll could not be found."));
}

#[test]
fn gets_existing_election() {
    let (poll, c) = created(generate_poll(3, false));
    let fetched = get_poll(Ok(Some(poll))).unwrap();
    assert_eq!(fetched.id, c.id);
}

#[test]
fn failed_poll_lookup_is_unexpected() {
    let err = get_poll(Err(StoreFailure)).unwrap_err();
    assert_eq!(err, HttpError::UnexpectedError("Failed to retrieve poll from database."));
    assert_eq!(err.status_code(), 500);
}

#[test]
fn gets_poll_results() {
    let poll = past_election(generate_poll(5, true));
    let rows: Vec<PollResults> = poll
        .choices
        .iter()
        .map(|c| PollResults { poll_id: poll.id, choice_id: c.id, vote_count: Some(20) })
        .collect();
    let results = poll_results(Some(&poll), rows.clone()).unwrap();
    assert_eq!(results, rows);
}

#[test]
fn fails_to_get_results_for_current_poll() {
    let (poll, _) = created(generate_poll(5, false));
    let err = poll_results(Some(&poll), vec![]).unwrap_err();
    assert_eq!(err, HttpError::UserError("Cannot retrieve results for an active poll."));
    assert_eq!(err.status_code() / 100, 4);
}

#[test]
fn results_of_missing_poll_are_not_found() {
    let err = poll_results(None, vec![]).unwrap_err();
    assert_eq!(err.status_code(), 404);
}

#[test]
fn vote_poll_works_properly() {
    let (poll, _) = created(generate_poll(5, false));
    let choice = poll.choices[2].id;
    let mut votes = vec![];
    assert_eq!(cast_vote(&poll, choice, "10.1.2.3", &mut votes), Ok(()));
    assert_eq!(votes, vec![(poll.id, IpNetwork::V4 { addr: 0x0A01_0203, prefix: 32 })]);
}

#[test]
fn fails_if_client_has_already_voted_in_election() {
    let (poll, _) = created(generate_poll(5, false));
    let choice = poll.choices[0].id;
    let mut votes = vec![];

    assert!(cast_vote(&poll, choice, "10.1.2.3", &mut votes).is_ok());

    let err = cast_vote(&poll, choice, "10.1.2.3", &mut votes).unwrap_err();
    assert_eq!(err, HttpError::UserError("You have already voted in this poll."));
    assert_eq!(err.status_code() / 100, 4);
    assert_eq!(votes.len(), 1);

    // another network may still vote
    assert!(cast_vote(&poll, choice, "10.1.2.4", &mut votes).is_ok());
}

#[test]
fn fails_if_attempting_to_vote_in_expired_poll() {
    let poll = past_election(generate_poll(5, true));
    let choice = poll.choices[1].id;
    let mut votes = vec![];
    let err = cast_vote(&poll, choice, "10.1.2.3", &mut votes).unwrap_err();
    assert_eq!(err, HttpError::UserError("Cannot vote in an expired poll."));
    assert!(votes.is_empty());
}

#[test]
fn fails_if_voting_for_choice_not_belonging_to_poll() {
    let (poll, _) = created(generate_poll(5, false));
    let mut votes = vec![];
    let err = cast_vote(&poll, Uuid::new_v4().as_u128(), "10.1.2.3", &mut votes).unwrap_err();
    assert_eq!(err, HttpError::UserError("Cannot cast a vote for an invalid choice"));
    assert!(votes.is_empty());
}

#[test]
fn unreadable_client_address_is_unexpected() {
    let (poll, _) = created(generate_poll(3, false));
    let mut votes = vec![];
    let err = cast_vote(&poll, poll.choices[0].id, "somewhere", &mut votes).unwrap_err();
    assert_eq!(err, HttpError::UnexpectedError("Failed to parse client IP address."));
    assert_eq!(err.status_code(), 500);
}

#[test]
fn store_failures_name_the_failed_step() {
    let new_poll = generate_poll(3, false);
    let (flow, _) = create_new_poll_and_choices(new_poll, Timestamp { secs: 0, nanos: 0 });
    let (_, action) = flow.step(CreateEvent::StoreFailed);
    assert_eq!(
        action,
        CreateAction::Respond(Err(HttpError::UnexpectedError(
            "Failed to acquire a Postgres connection from the pool."
        )))
    );

    let (flow, _) = vote_poll(VotePath { id: 1, choice: 2 }, None);
    let (flow, action) = flow.step(VoteEvent::StoreFailed(StoreFailure));
    assert_eq!(
        action,
        VoteAction::Respond(Err(HttpError::UnexpectedError("Failed to retrieve poll to cast vote.")))
    );
    assert_eq!(flow.stage, poll_api::routes::VoteStage::Finished);
}

fn fixed_poll(end_secs: i64) -> Poll {
    let start = Timestamp { secs: 0, nanos: 0 };
    Poll {
        id: 7,
        name: "Lunch today?".to_string(),
        description: None,
        created_at: start,
        end_date: Timestamp { secs: end_secs, nanos: 0 },
        choices: vec![
            PollChoice { id: 70, name: "pizza".to_string(), created_at: start },
            PollChoice { id: 71, name: "soup".to_string(), created_at: start },
        ],
    }
}

#[test]
fn poll_ending_now_allows_votes_and_results() {
    let now = Timestamp { secs: 500, nanos: 0 };
    let poll = fixed_poll(500);

    let (flow, _) = vote_poll(VotePath { id: 7, choice: 71 }, Some("192.0.2.1".to_string()));
    let (_, action) = flow.step_at(VoteEvent::PollFetched(Some(poll.clone())), &now);
    assert_eq!(
        action,
        VoteAction::FetchExistingVote { poll_id: 7, ip: IpNetwork::V4 { addr: 0xC000_0201, prefix: 32 } }
    );

    let (flow, _) = get_poll_results(7);
    let (_, action) = flow.step_at(ResultsEvent::PollFetched(Some(poll.clone())), &now);
    assert_eq!(action, ResultsAction::FetchResults { poll_id: 7 });

    let later = Timestamp { secs: 500, nanos: 1 };
    let (flow, _) = vote_poll(VotePath { id: 7, choice: 71 }, Some("192.0.2.1".to_string()));
    let (_, action) = flow.step_at(VoteEvent::PollFetched(Some(poll.clone())), &later);
    assert_eq!(action, VoteAction::Respond(Err(HttpError::UserError("Cannot vote in an expired poll."))));

    let earlier = Timestamp { secs: 499, nanos: 999_999_999 };
    let (flow, _) = get_poll_results(7);
    let (_, action) = flow.step_at(ResultsEvent::PollFetched(Some(poll)), &earlier);
    assert_eq!(
        action,
        ResultsAction::Respond(Err(HttpError::UserError("Cannot retrieve results for an active poll.")))
    );
}

#[test]
fn vote_is_recorded_with_the_requested_ids() {
    let now = Timestamp { secs: 100, nanos: 0 };
    let (flow, action) = vote_poll(VotePath { id: 7, choice: 70 }, Some("2001:db8::1".to_string()));
    assert_eq!(action, VoteAction::FetchPoll { poll_id: 7 });
    let (flow, action) = flow.step_at(VoteEvent::PollFetched(Some(fixed_poll(500))), &now);
    let ip = IpNetwork::V6 { addr: 0x2001_0db8_0000_0000_0000_0000_0000_0001, prefix: 128 };
    assert_eq!(action, VoteAction::FetchExistingVote { poll_id: 7, ip });
    let (flow, action) = flow.step_at(VoteEvent::ExistingVoteFetched(None), &now);
    assert_eq!(action, VoteAction::InsertVote { poll_id: 7, choice_id: 70, ip });
    let (flow, action) = flow.step_at(VoteEvent::VoteInserted, &now);
    assert_eq!(action, VoteAction::Respond(Ok(())));
    assert_eq!(flow.stage, poll_api::routes::VoteStage::Finished);
}

#[test]
fn missing_client_address_stops_the_vote() {
    let now = Timestamp { secs: 100, nanos: 0 };
    let (flow, _) = vote_poll(VotePath { id: 7, choice: 70 }, None);
    let (_, action) = flow.step_at(VoteEvent::PollFetched(Some(fixed_poll(500))), &now);
    assert_eq!(
        action,
        VoteAction::Respond(Err(HttpError::UnexpectedError("Failed to parse client IP address.")))
    );
}

#[test]
fn creation_failure_at_each_step_names_the_step() {
    let messages = [
        "Failed to acquire a Postgres connection from the pool.",
        "Failed to create new poll.",
        "Failed to create poll choices",
        "Failed to commit SQL transaction while creating new poll.",
    ];
    let successes = [
        CreateEvent::TransactionBegun,
        CreateEvent::PollInserted { poll_id: 5 },
        CreateEvent::ChoicesInserted,
    ];
    for (failing_step, message) in messages.iter().enumerate() {
        let (mut flow, _) = create_new_poll_and_choices(generate_poll(2, false), Timestamp { secs: 0, nanos: 0 });
        for event in successes.iter().take(failing_step) {
            let (f, _) = flow.step(*event);
            flow = f;
        }
        let (flow, action) = flow.step(CreateEvent::StoreFailed);
        assert_eq!(action, CreateAction::Respond(Err(HttpError::UnexpectedError(message))));
        assert_eq!(flow.stage, poll_api::repositories::CreateStage::Finished);
    }
}

#[test]
fn created_poll_carries_inserted_id_and_submitted_name() {
    let new_poll = generate_poll(2, false);
    let name = new_poll.name.clone();
    let (flow, action) = create_new_poll_and_choices(new_poll, Timestamp { secs: 0, nanos: 0 });
    let created = finish_creation(flow, action, 0xABCD).unwrap();
    assert_eq!(created, CreatedPoll { id: 0xABCD, name });
}
