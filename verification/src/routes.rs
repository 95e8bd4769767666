//! What the routes of the poll service decide. Each route alternates work
//! on the store with decisions; the decisions stand here as functions from
//! a route's state and the outcome of the last piece of work to its next
//! state and the next thing to do, ending with the response.

use crate::domain::{is_clock_reading, utc_now, NewPoll, Poll, PollResults, PollVote, Timestamp, VotePath};
use crate::errors::HttpError;
use crate::helpers::{parse_client_ip, spec_parse_client_ip, IpNetwork};
use crate::repositories::{
    create_new_poll_and_choices, CreateAction, CreatePollFlow, CreateStage,
};
use crate::validation::{expected_errors, poll_is_valid, validation_outcome};
use vstd::prelude::*;

verus! {

/// The store failed to do what it was asked.
#[derive(Clone, Copy, Debug, PartialEq, Eq, Structural)]
pub struct StoreFailure;

/// The error for a poll that the store could not be asked for.
pub open spec fn poll_lookup_failed() -> HttpError {
    HttpError::UnexpectedError("Failed to retrieve poll from database.")
}

/// The error for a poll that does not exist.
pub open spec fn poll_not_found() -> HttpError {
    HttpError::NotFoundError("The requested poll could not be found.")
}

/// What the route that shows a poll answers, given what the store gave for
/// the poll: the poll itself, or the error for a failed lookup or a missing
/// poll.
pub fn get_poll(fetched: Result<Option<Poll>, StoreFailure>) -> (r: Result<Poll, HttpError>)
    ensures
        match fetched {
            Err(_) => r == Err::<Poll, HttpError>(poll_lookup_failed()),
            Ok(None) => r == Err::<Poll, HttpError>(poll_not_found()),
            Ok(Some(p)) => r == Ok::<Poll, HttpError>(p),
        },
{
    match fetched {
        Err(_) => Err(HttpError::UnexpectedError("Failed to retrieve poll from database.")),
        Ok(None) => Err(HttpError::NotFoundError("The requested poll could not be found.")),
        Ok(Some(p)) => Ok(p),
    }
}

// ----------------------------------------------------------------------
// The results of a poll
// ----------------------------------------------------------------------

/// Where the route that shows a poll's results stands.
#[derive(Clone, Copy, Debug, PartialEq, Eq, Structural)]
pub enum ResultsStage {
    /// The poll has been asked for.
    AwaitingPoll,
    /// The results have been asked for.
    AwaitingResults,
    /// The response has been given.
    Finished,
}

/// The route that shows the results of the poll `poll_id`.
#[derive(Clone, Copy, Debug, PartialEq, Eq, Structural)]
pub struct ResultsFlow {
    pub poll_id: u128,
    pub stage: ResultsStage,
}

/// What the route asks the store for, or its response.
#[derive(Debug, PartialEq, Eq)]
pub enum ResultsAction {
    FetchPoll { poll_id: u128 },
    FetchResults { poll_id: u128 },
    Respond(Result<Vec<PollResults>, HttpError>),
}

/// What the store gave.
#[derive(Debug, PartialEq, Eq)]
pub enum ResultsEvent {
    PollFetched(Option<Poll>),
    ResultsFetched(Vec<PollResults>),
    StoreFailed(StoreFailure),
}

/// The error for results of a poll that has not ended.
pub open spec fn poll_still_active() -> HttpError {
    HttpError::UserError("Cannot retrieve results for an active poll.")
}

/// The error for results that the store could not be asked for.
pub open spec fn results_lookup_failed() -> HttpError {
    HttpError::UnexpectedError("Failed to retrieve poll results from database.")
}

impl ResultsFlow {
    /// The flow expects this outcome in its stage.
    pub open spec fn accepts(self, event: ResultsEvent) -> bool {
        match self.stage {
            ResultsStage::AwaitingPoll => event is PollFetched || event is StoreFailed,
            ResultsStage::AwaitingResults => event is ResultsFetched || event is StoreFailed,
            ResultsStage::Finished => false,
        }
    }

    /// How many more outcomes the flow can take before it has responded.
    pub open spec fn remaining(self) -> nat {
        match self.stage {
            ResultsStage::AwaitingPoll => 2,
            ResultsStage::AwaitingResults => 1,
            ResultsStage::Finished => 0,
        }
    }

    /// The next state and action after `event`, the clock reading `now`.
    /// A missing poll is not found; a poll whose end date lies after `now`
    /// is still active and its results are refused; otherwise the results
    /// are asked for and then given.
    pub open spec fn transition(self, event: ResultsEvent, now: Timestamp) -> (
        ResultsFlow,
        ResultsAction,
    ) {
        let done = ResultsFlow { stage: ResultsStage::Finished, ..self };
        match event {
            ResultsEvent::StoreFailed(_) => (
                done,
                ResultsAction::Respond(
                    Err(
                        if self.stage is AwaitingPoll {
                            poll_lookup_failed()
                        } else {
                            results_lookup_failed()
                        },
                    ),
                ),
            ),
            ResultsEvent::PollFetched(None) => (done, ResultsAction::Respond(Err(poll_not_found()))),
            ResultsEvent::PollFetched(Some(p)) => if now.spec_before(p.end_date) {
                (done, ResultsAction::Respond(Err(poll_still_active())))
            } else {
                (
                    ResultsFlow { stage: ResultsStage::AwaitingResults, ..self },
                    ResultsAction::FetchResults { poll_id: self.poll_id },
                )
            },
            ResultsEvent::ResultsFetched(results) => (done, ResultsAction::Respond(Ok(results))),
        }
    }

    /// Whether the flow expects this outcome in its stage.
    pub fn expects(&self, event: &ResultsEvent) -> (r: bool)
        ensures
            r == self.accepts(*event),
    {
        match self.stage {
            ResultsStage::AwaitingPoll => matches!(event, ResultsEvent::PollFetched(_) | ResultsEvent::StoreFailed(_)),
            ResultsStage::AwaitingResults => matches!(event, ResultsEvent::ResultsFetched(_) | ResultsEvent::StoreFailed(_)),
            ResultsStage::Finished => false,
        }
    }

    /// Takes the next outcome, the clock reading `now`.
    pub fn step_at(self, event: ResultsEvent, now: &Timestamp) -> (r: (ResultsFlow, ResultsAction))
        requires
            self.accepts(event),
        ensures
            r == self.transition(event, *now),
            r.0.remaining() < self.remaining(),
            r.0.stage is Finished <==> r.1 is Respond,
    {
        let mut next = self;
        next.stage = ResultsStage::Finished;
        match event {
            ResultsEvent::StoreFailed(_) => {
                let err = match self.stage {
                    ResultsStage::AwaitingPoll => HttpError::UnexpectedError(
                        "Failed to retrieve poll from database.",
                    ),
                    _ => HttpError::UnexpectedError(
                        "Failed to retrieve poll results from database.",
                    ),
                };
                (next, ResultsAction::Respond(Err(err)))
            },
            ResultsEvent::PollFetched(None) => (
                next,
                ResultsAction::Respond(
                    Err(HttpError::NotFoundError("The requested poll could not be found.")),
                ),
            ),
            ResultsEvent::PollFetched(Some(p)) => {
                if now.before(&p.end_date) {
                    (
                        next,
                        ResultsAction::Respond(
                            Err(HttpError::UserError("Cannot retrieve results for an active poll.")),
                        ),
                    )
                } else {
                    next.stage = ResultsStage::AwaitingResults;
                    (next, ResultsAction::FetchResults { poll_id: self.poll_id })
                }
            },
            ResultsEvent::ResultsFetched(results) => (next, ResultsAction::Respond(Ok(results))),
        }
    }

    /// Takes the next outcome, reading the clock: the result is what
    /// `step_at` gives for an instant that the clock can give.
    pub fn step(self, event: ResultsEvent) -> (r: (ResultsFlow, ResultsAction))
        requires
            self.accepts(event),
        ensures
            exists|now: Timestamp|
                is_clock_reading(now) && r == #[trigger] self.transition(event, now),
            r.0.remaining() < self.remaining(),
            r.0.stage is Finished <==> r.1 is Respond,
    {
        let now = utc_now();
        self.step_at(event, &now)
    }
}

/// Starts the route that shows the results of the poll `id`: the poll is
/// asked for first.
pub fn get_poll_results(id: u128) -> (r: (ResultsFlow, ResultsAction))
    ensures
        r.0 == (ResultsFlow { poll_id: id, stage: ResultsStage::AwaitingPoll }),
        r.1 == (ResultsAction::FetchPoll { poll_id: id }),
{
    (ResultsFlow { poll_id: id, stage: ResultsStage::AwaitingPoll }, ResultsAction::FetchPoll {
        poll_id: id,
    })
}

// ----------------------------------------------------------------------
// Voting
// ----------------------------------------------------------------------

/// Where the route that records a vote stands.
#[derive(Clone, Copy, Debug, PartialEq, Eq, Structural)]
pub enum VoteStage {
    /// The poll has been asked for.
    AwaitingPoll,
    /// The vote already cast from the client's network `ip` has been asked for.
    AwaitingExistingVote { ip: IpNetwork },
    /// The vote is being recorded.
    AwaitingInsert,
    /// The response has been given.
    Finished,
}

/// The route that records a vote for `path.choice` in the poll `path.id`,
/// from a client at `remote_addr`.
#[derive(Debug, PartialEq, Eq)]
pub struct VoteFlow {
    pub path: VotePath,
    pub remote_addr: Option<String>,
    pub stage: VoteStage,
}

/// What the route asks the store for, or its response.
#[derive(Debug, PartialEq, Eq)]
pub enum VoteAction {
    FetchPoll { poll_id: u128 },
    FetchExistingVote { poll_id: u128, ip: IpNetwork },
    InsertVote { poll_id: u128, choice_id: u128, ip: IpNetwork },
    Respond(Result<(), HttpError>),
}

/// What the store gave.
#[derive(Debug, PartialEq, Eq)]
pub enum VoteEvent {
    PollFetched(Option<Poll>),
    ExistingVoteFetched(Option<PollVote>),
    VoteInserted,
    StoreFailed(StoreFailure),
}

/// The error for a poll that could not be asked for to cast a vote.
pub open spec fn vote_poll_lookup_failed() -> HttpError {
    HttpError::UnexpectedError("Failed to retrieve poll to cast vote.")
}

/// The error for a vote in a poll that has ended.
pub open spec fn poll_expired() -> HttpError {
    HttpError::UserError("Cannot vote in an expired poll.")
}

/// The error for a vote for a choice that the poll does not offer.
pub open spec fn invalid_choice() -> HttpError {
    HttpError::UserError("Cannot cast a vote for an invalid choice")
}

/// The error for a client address that cannot be read.
pub open spec fn client_ip_unreadable() -> HttpError {
    HttpError::UnexpectedError("Failed to parse client IP address.")
}

/// The error for an existing vote that could not be asked for.
pub open spec fn existing_vote_lookup_failed() -> HttpError {
    HttpError::UnexpectedError("Failed to retrieve existing vote from database")
}

/// The error for a second vote from the same network.
pub open spec fn already_voted() -> HttpError {
    HttpError::UserError("You have already voted in this poll.")
}

/// The error for a vote that could not be recorded.
pub open spec fn vote_insert_failed() -> HttpError {
    HttpError::UnexpectedError("Failed to insert new vote into the database.")
}

/// The text of the client's address.
pub open spec fn remote_text(remote_addr: Option<String>) -> Option<Seq<char>> {
    match remote_addr {
        Some(s) => Some(s@),
        None => None,
    }
}

impl VoteFlow {
    /// The flow expects this outcome in its stage.
    pub open spec fn accepts(self, event: VoteEvent) -> bool {
        match self.stage {
            VoteStage::AwaitingPoll => event is PollFetched || event is StoreFailed,
            VoteStage::AwaitingExistingVote { .. } => event is ExistingVoteFetched
                || event is StoreFailed,
            VoteStage::AwaitingInsert => event is VoteInserted || event is StoreFailed,
            VoteStage::Finished => false,
        }
    }

    /// How many more outcomes the flow can take before it has responded.
    pub open spec fn remaining(self) -> nat {
        match self.stage {
            VoteStage::AwaitingPoll => 3,
            VoteStage::AwaitingExistingVote { .. } => 2,
            VoteStage::AwaitingInsert => 1,
            VoteStage::Finished => 0,
        }
    }

    /// The flow with another stage.
    pub open spec fn at_stage(self, stage: VoteStage) -> VoteFlow {
        VoteFlow { stage, ..self }
    }

    /// The error that a failure of the store gives in the flow's stage.
    pub open spec fn failure_error(self) -> HttpError {
        match self.stage {
            VoteStage::AwaitingPoll => vote_poll_lookup_failed(),
            VoteStage::AwaitingExistingVote { .. } => existing_vote_lookup_failed(),
            _ => vote_insert_failed(),
        }
    }

    /// What the flow decides once the poll `p` is known, the clock reading
    /// `now`: a poll whose end date lies before `now` has expired; the choice
    /// must be one of the poll's; the client's address must be readable;
    /// then the vote already cast from that network is asked for.
    pub open spec fn after_poll(self, p: Poll, now: Timestamp) -> (VoteFlow, VoteAction) {
        let done = self.at_stage(VoteStage::Finished);
        if p.end_date.spec_before(now) {
            (done, VoteAction::Respond(Err(poll_expired())))
        } else if !p.has_choice(self.path.choice) {
            (done, VoteAction::Respond(Err(invalid_choice())))
        } else {
            match spec_parse_client_ip(remote_text(self.remote_addr)) {
                Err(_) => (done, VoteAction::Respond(Err(client_ip_unreadable()))),
                Ok(ip) => (
                    self.at_stage(VoteStage::AwaitingExistingVote { ip }),
                    VoteAction::FetchExistingVote { poll_id: p.id, ip },
                ),
            }
        }
    }

    /// The next state and action after `event`, the clock reading `now`.
    pub open spec fn transition(self, event: VoteEvent, now: Timestamp) -> (VoteFlow, VoteAction) {
        let done = self.at_stage(VoteStage::Finished);
        match event {
            VoteEvent::StoreFailed(_) => (done, VoteAction::Respond(Err(self.failure_error()))),
            VoteEvent::PollFetched(None) => (done, VoteAction::Respond(Err(poll_not_found()))),
            VoteEvent::PollFetched(Some(p)) => self.after_poll(p, now),
            VoteEvent::ExistingVoteFetched(Some(_)) => (
                done,
                VoteAction::Respond(Err(already_voted())),
            ),
            VoteEvent::ExistingVoteFetched(None) => match self.stage {
                VoteStage::AwaitingExistingVote { ip } => (
                    self.at_stage(VoteStage::AwaitingInsert),
                    VoteAction::InsertVote { poll_id: self.path.id, choice_id: self.path.choice, ip },
                ),
                _ => (done, VoteAction::Respond(Err(self.failure_error()))),
            },
            VoteEvent::VoteInserted => (done, VoteAction::Respond(Ok(()))),
        }
    }

    fn remote_str(&self) -> (r: Option<&str>)
        ensures
            crate::helpers::address_text(r) == remote_text(self.remote_addr),
    {
        match &self.remote_addr {
            Some(s) => Some(s.as_str()),
            None => None,
        }
    }

    /// Whether the flow expects this outcome in its stage.
    pub fn expects(&self, event: &VoteEvent) -> (r: bool)
        ensures
            r == self.accepts(*event),
    {
        match self.stage {
            VoteStage::AwaitingPoll => matches!(event, VoteEvent::PollFetched(_) | VoteEvent::StoreFailed(_)),
            VoteStage::AwaitingExistingVote { .. } => matches!(event, VoteEvent::ExistingVoteFetched(_) | VoteEvent::StoreFailed(_)),
            VoteStage::AwaitingInsert => matches!(event, VoteEvent::VoteInserted | VoteEvent::StoreFailed(_)),
            VoteStage::Finished => false,
        }
    }

    /// Takes the next outcome, the clock reading `now`.
    pub fn step_at(self, event: VoteEvent, now: &Timestamp) -> (r: (VoteFlow, VoteAction))
        requires
            self.accepts(event),
        ensures
            r == self.transition(event, *now),
            r.0.remaining() < self.remaining(),
            r.0.stage is Finished <==> r.1 is Respond,
    {
        let mut next = self;
        let stage = next.stage;
        next.stage = VoteStage::Finished;
        match event {
            VoteEvent::StoreFailed(_) => {
                let err = match stage {
                    VoteStage::AwaitingPoll => HttpError::UnexpectedError(
                        "Failed to retrieve poll to cast vote.",
                    ),
                    VoteStage::AwaitingExistingVote { .. } => HttpError::UnexpectedError(
                        "Failed to retrieve existing vote from database",
                    ),
                    _ => HttpError::UnexpectedError("Failed to insert new vote into the database."),
                };
                (next, VoteAction::Respond(Err(err)))
            },
            VoteEvent::PollFetched(None) => (
                next,
                VoteAction::Respond(
                    Err(HttpError::NotFoundError("The requested poll could not be found.")),
                ),
            ),
            VoteEvent::PollFetched(Some(p)) => {
                if p.end_date.before(now) {
                    return (
                        next,
                        VoteAction::Respond(Err(HttpError::UserError("Cannot vote in an expired poll."))),
                    );
                }
                if !p.find_choice(next.path.choice) {
                    return (
                        next,
                        VoteAction::Respond(
                            Err(HttpError::UserError("Cannot cast a vote for an invalid choice")),
                        ),
                    );
                }
                let parsed = parse_client_ip(&next.remote_str());
                match parsed {
                    Err(_) => (
                        next,
                        VoteAction::Respond(
                            Err(HttpError::UnexpectedError("Failed to parse client IP address.")),
                        ),
                    ),
                    Ok(ip) => {
                        next.stage = VoteStage::AwaitingExistingVote { ip };
                        (next, VoteAction::FetchExistingVote { poll_id: p.id, ip })
                    },
                }
            },
            VoteEvent::ExistingVoteFetched(Some(_)) => (
                next,
                VoteAction::Respond(
                    Err(HttpError::UserError("You have already voted in this poll.")),
                ),
            ),
            VoteEvent::ExistingVoteFetched(None) => {
                match stage {
                    VoteStage::AwaitingExistingVote { ip } => {
                        next.stage = VoteStage::AwaitingInsert;
                        let poll_id = next.path.id;
                        let choice_id = next.path.choice;
                        (next, VoteAction::InsertVote { poll_id, choice_id, ip })
                    },
                    _ => (
                        next,
                        VoteAction::Respond(
                            Err(
                                HttpError::UnexpectedError(
                                    "Failed to insert new vote into the database.",
                                ),
                            ),
                        ),
                    ),
                }
            },
            VoteEvent::VoteInserted => (next, VoteAction::Respond(Ok(()))),
        }
    }

    /// Takes the next outcome, reading the clock: the result is what
    /// `step_at` gives for an instant that the clock can give.
    pub fn step(self, event: VoteEvent) -> (r: (VoteFlow, VoteAction))
        requires
            self.accepts(event),
        ensures
            exists|now: Timestamp|
                is_clock_reading(now) && r == #[trigger] self.transition(event, now),
            r.0.remaining() < self.remaining(),
            r.0.stage is Finished <==> r.1 is Respond,
    {
        let now = utc_now();
        self.step_at(event, &now)
    }
}

/// Starts the route that records a vote for `path.choice` in the poll
/// `path.id` from a client at `remote_addr`: the poll is asked for first.
pub fn vote_poll(path: VotePath, remote_addr: Option<String>) -> (r: (VoteFlow, VoteAction))
    ensures
        r.0 == (VoteFlow { path, remote_addr, stage: VoteStage::AwaitingPoll }),
        r.1 == (VoteAction::FetchPoll { poll_id: path.id }),
{
    (VoteFlow { path, remote_addr, stage: VoteStage::AwaitingPoll }, VoteAction::FetchPoll {
        poll_id: path.id,
    })
}

// ----------------------------------------------------------------------
// Creating a poll
// ----------------------------------------------------------------------

/// How the route that creates a poll starts, the poll validated at
/// `validated_at` and to be created with `start_date` as its creation date:
/// a poll that breaks a rule is refused with the broken rules and nothing
/// is asked of the store; a valid one goes on to be created.
pub open spec fn create_poll_outcome(
    new_poll: NewPoll,
    validated_at: Timestamp,
    start_date: Timestamp,
    r: (CreatePollFlow, CreateAction),
) -> bool {
    &&& r.0.new_poll == new_poll
    &&& if poll_is_valid(new_poll, validated_at) {
        &&& r.0 == (CreatePollFlow {
            new_poll,
            start_date,
            stage: CreateStage::AwaitingTransaction,
        })
        &&& r.1 == CreateAction::BeginTransaction
    } else {
        &&& r.0.stage == CreateStage::Finished
        &&& r.1 matches CreateAction::Respond(Err(HttpError::ValidationError(e)))
        &&& e.shape() == expected_errors(new_poll, validated_at)
    }
}

/// Starts the route that creates `new_poll`, validated at `validated_at`,
/// with `start_date` as its creation date.
pub fn create_poll_at(new_poll: NewPoll, validated_at: &Timestamp, start_date: &Timestamp) -> (r: (
    CreatePollFlow,
    CreateAction,
))
    ensures
        create_poll_outcome(new_poll, *validated_at, *start_date, r),
{
    let checked = new_poll.validate_at(validated_at);
    match checked {
        Err(e) => (
            CreatePollFlow { new_poll, start_date: *start_date, stage: CreateStage::Finished },
            CreateAction::Respond(Err(HttpError::ValidationError(e))),
        ),
        Ok(()) => create_new_poll_and_choices(new_poll, *start_date),
    }
}

/// Starts the route that creates `new_poll`, validating it against the
/// clock and reading the clock again for its creation date: the result is
/// what `create_poll_at` gives for two instants that the clock can give,
/// and the creation date of the poll is such an instant.
pub fn create_poll(new_poll: NewPoll) -> (r: (CreatePollFlow, CreateAction))
    ensures
        exists|validated_at: Timestamp, start_date: Timestamp|
            is_clock_reading(validated_at) && is_clock_reading(start_date)
                && #[trigger] create_poll_outcome(new_poll, validated_at, start_date, r),
        is_clock_reading(r.0.start_date),
{
    let checked = new_poll.validate();
    let ghost validated_at = choose|now: Timestamp|
        is_clock_reading(now) && validation_outcome(new_poll, now, checked);
    let start_date = utc_now();
    let r = match checked {
        Err(e) => (
            CreatePollFlow { new_poll, start_date, stage: CreateStage::Finished },
            CreateAction::Respond(Err(HttpError::ValidationError(e))),
        ),
        Ok(()) => create_new_poll_and_choices(new_poll, start_date),
    };
    assert(create_poll_outcome(r.0.new_poll, validated_at, start_date, r));
    r
}

} // verus!
