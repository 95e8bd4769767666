//! What the creation of a poll in the store decides: within one
//! transaction the poll is inserted, then its choices, then the transaction
//! is committed; any failure ends the creation with an error that says which
//! step failed.

use crate::domain::{CreatedPoll, NewPoll, Timestamp};
use crate::errors::HttpError;
use vstd::prelude::*;

verus! {

/// Where the creation of a poll stands.
#[derive(Clone, Copy, Debug, PartialEq, Eq, Structural)]
pub enum CreateStage {
    /// A transaction has been asked for.
    AwaitingTransaction,
    /// The poll is being inserted.
    AwaitingPollInsert,
    /// The choices of the poll `poll_id` are being inserted.
    AwaitingChoicesInsert { poll_id: u128 },
    /// The transaction that created the poll `poll_id` is being committed.
    AwaitingCommit { poll_id: u128 },
    /// The creation has ended.
    Finished,
}

/// The creation of `new_poll`, started at `start_date`.
#[derive(Debug, PartialEq, Eq)]
pub struct CreatePollFlow {
    pub new_poll: NewPoll,
    pub start_date: Timestamp,
    pub stage: CreateStage,
}

/// What the creation asks the store to do, or how it ends. The poll to
/// insert is the flow's `new_poll`, with the flow's `start_date` as its
/// creation date.
#[derive(Debug, PartialEq, Eq)]
pub enum CreateAction {
    BeginTransaction,
    InsertPoll,
    InsertChoices { poll_id: u128 },
    Commit,
    Respond(Result<CreatedPoll, HttpError>),
}

/// What the store did.
#[derive(Clone, Copy, Debug, PartialEq, Eq, Structural)]
pub enum CreateEvent {
    TransactionBegun,
    PollInserted { poll_id: u128 },
    ChoicesInserted,
    Committed,
    StoreFailed,
}

/// The error for a transaction that could not be begun.
pub open spec fn transaction_failed() -> HttpError {
    HttpError::UnexpectedError("Failed to acquire a Postgres connection from the pool.")
}

/// The error for a poll that could not be inserted.
pub open spec fn poll_insert_failed() -> HttpError {
    HttpError::UnexpectedError("Failed to create new poll.")
}

/// The error for choices that could not be inserted.
pub open spec fn choices_insert_failed() -> HttpError {
    HttpError::UnexpectedError("Failed to create poll choices")
}

/// The error for a transaction that could not be committed.
pub open spec fn commit_failed() -> HttpError {
    HttpError::UnexpectedError("Failed to commit SQL transaction while creating new poll.")
}

impl CreatePollFlow {
    /// The flow expects this outcome in its stage.
    pub open spec fn accepts(self, event: CreateEvent) -> bool {
        match self.stage {
            CreateStage::AwaitingTransaction => event is TransactionBegun || event is StoreFailed,
            CreateStage::AwaitingPollInsert => event is PollInserted || event is StoreFailed,
            CreateStage::AwaitingChoicesInsert { .. } => event is ChoicesInserted
                || event is StoreFailed,
            CreateStage::AwaitingCommit { .. } => event is Committed || event is StoreFailed,
            CreateStage::Finished => false,
        }
    }

    /// How many more outcomes the flow can take before it has ended.
    pub open spec fn remaining(self) -> nat {
        match self.stage {
            CreateStage::AwaitingTransaction => 4,
            CreateStage::AwaitingPollInsert => 3,
            CreateStage::AwaitingChoicesInsert { .. } => 2,
            CreateStage::AwaitingCommit { .. } => 1,
            CreateStage::Finished => 0,
        }
    }

    /// The flow with another stage.
    pub open spec fn at_stage(self, stage: CreateStage) -> CreatePollFlow {
        CreatePollFlow { stage, ..self }
    }

    /// The error that a failure of the store gives in the flow's stage.
    pub open spec fn failure_error(self) -> HttpError {
        match self.stage {
            CreateStage::AwaitingTransaction => transaction_failed(),
            CreateStage::AwaitingPollInsert => poll_insert_failed(),
            CreateStage::AwaitingChoicesInsert { .. } => choices_insert_failed(),
            _ => commit_failed(),
        }
    }

    /// The next state and action after `event`: each step that succeeds
    /// leads to the next; once committed, the creation answers the new
    /// poll's identifier and the submitted name.
    pub open spec fn transition(self, event: CreateEvent) -> (CreatePollFlow, CreateAction) {
        let done = self.at_stage(CreateStage::Finished);
        match event {
            CreateEvent::StoreFailed => (done, CreateAction::Respond(Err(self.failure_error()))),
            CreateEvent::TransactionBegun => (
                self.at_stage(CreateStage::AwaitingPollInsert),
                CreateAction::InsertPoll,
            ),
            CreateEvent::PollInserted { poll_id } => (
                self.at_stage(CreateStage::AwaitingChoicesInsert { poll_id }),
                CreateAction::InsertChoices { poll_id },
            ),
            CreateEvent::ChoicesInserted => match self.stage {
                CreateStage::AwaitingChoicesInsert { poll_id } => (
                    self.at_stage(CreateStage::AwaitingCommit { poll_id }),
                    CreateAction::Commit,
                ),
                _ => (done, CreateAction::Respond(Err(self.failure_error()))),
            },
            CreateEvent::Committed => match self.stage {
                CreateStage::AwaitingCommit { poll_id } => (
                    done,
                    CreateAction::Respond(
                        Ok(CreatedPoll { id: poll_id, name: self.new_poll.name }),
                    ),
                ),
                _ => (done, CreateAction::Respond(Err(self.failure_error()))),
            },
        }
    }

    /// Whether the flow expects this outcome in its stage.
    pub fn expects(&self, event: &CreateEvent) -> (r: bool)
        ensures
            r == self.accepts(*event),
    {
        match self.stage {
            CreateStage::AwaitingTransaction => matches!(event, CreateEvent::TransactionBegun | CreateEvent::StoreFailed),
            CreateStage::AwaitingPollInsert => matches!(event, CreateEvent::PollInserted { .. } | CreateEvent::StoreFailed),
            CreateStage::AwaitingChoicesInsert { .. } => matches!(event, CreateEvent::ChoicesInserted | CreateEvent::StoreFailed),
            CreateStage::AwaitingCommit { .. } => matches!(event, CreateEvent::Committed | CreateEvent::StoreFailed),
            CreateStage::Finished => false,
        }
    }

    /// Takes the next outcome.
    pub fn step(self, event: CreateEvent) -> (r: (CreatePollFlow, CreateAction))
        requires
            self.accepts(event),
        ensures
            r == self.transition(event),
            r.0.remaining() < self.remaining(),
            r.0.stage is Finished <==> r.1 is Respond,
    {
        let mut next = self;
        let stage = next.stage;
        next.stage = CreateStage::Finished;
        match event {
            CreateEvent::StoreFailed => {
                let err = match stage {
                    CreateStage::AwaitingTransaction => HttpError::UnexpectedError(
                        "Failed to acquire a Postgres connection from the pool.",
                    ),
                    CreateStage::AwaitingPollInsert => HttpError::UnexpectedError(
                        "Failed to create new poll.",
                    ),
                    CreateStage::AwaitingChoicesInsert { .. } => HttpError::UnexpectedError(
                        "Failed to create poll choices",
                    ),
                    _ => HttpError::UnexpectedError(
                        "Failed to commit SQL transaction while creating new poll.",
                    ),
                };
                (next, CreateAction::Respond(Err(err)))
            },
            CreateEvent::TransactionBegun => {
                next.stage = CreateStage::AwaitingPollInsert;
                (next, CreateAction::InsertPoll)
            },
            CreateEvent::PollInserted { poll_id } => {
                next.stage = CreateStage::AwaitingChoicesInsert { poll_id };
                (next, CreateAction::InsertChoices { poll_id })
            },
            CreateEvent::ChoicesInserted => {
                match stage {
                    CreateStage::AwaitingChoicesInsert { poll_id } => {
                        next.stage = CreateStage::AwaitingCommit { poll_id };
                        (next, CreateAction::Commit)
                    },
                    _ => (
                        next,
                        CreateAction::Respond(
                            Err(HttpError::UnexpectedError("Failed to create poll choices")),
                        ),
                    ),
                }
            },
            CreateEvent::Committed => {
                match stage {
                    CreateStage::AwaitingCommit { poll_id } => {
                        let name = next.new_poll.name.clone();
                        (next, CreateAction::Respond(Ok(CreatedPoll { id: poll_id, name })))
                    },
                    _ => (
                        next,
                        CreateAction::Respond(
                            Err(
                                HttpError::UnexpectedError(
                                    "Failed to commit SQL transaction while creating new poll.",
                                ),
                            ),
                        ),
                    ),
                }
            },
        }
    }
}

/// Starts the creation of `new_poll` with `start_date` as its creation
/// date: a transaction is asked for first.
pub fn create_new_poll_and_choices(new_poll: NewPoll, start_date: Timestamp) -> (r: (
    CreatePollFlow,
    CreateAction,
))
    ensures
        r.0 == (CreatePollFlow { new_poll, start_date, stage: CreateStage::AwaitingTransaction }),
        r.1 == CreateAction::BeginTransaction,
{
    (
        CreatePollFlow { new_poll, start_date, stage: CreateStage::AwaitingTransaction },
        CreateAction::BeginTransaction,
    )
}

} // verus!
