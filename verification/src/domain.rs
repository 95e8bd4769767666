//! The values that the poll service reads and writes, held as plain data.
//! Identifiers are the 128-bit values of UUIDs; instants are UTC timestamps.

use vstd::prelude::*;

verus! {

/// A UTC instant: whole seconds since the Unix epoch and the nanoseconds
/// within that second (a leap second is carried as nanoseconds from one
/// billion up).
#[derive(Clone, Copy, Debug, PartialEq, Eq, Structural)]
pub struct Timestamp {
    pub secs: i64,
    pub nanos: u32,
}

impl Timestamp {
    /// Instants are ordered by their seconds, then by their nanoseconds.
    pub open spec fn spec_before(self, other: Timestamp) -> bool {
        self.secs < other.secs || (self.secs == other.secs && self.nanos < other.nanos)
    }

    pub fn before(&self, other: &Timestamp) -> (r: bool)
        ensures
            r == self.spec_before(*other),
    {
        self.secs < other.secs || (self.secs == other.secs && self.nanos < other.nanos)
    }
}

/// The latest whole second that chrono can hold as a UTC instant: the last
/// second of the year 262143 (a bound that its latest instant, in year
/// 262142 or 262143, stays within).
pub const LATEST_CLOCK_SECS: i64 = 8_210_298_412_799;

/// An instant that the system clock can give: not before the Unix epoch,
/// within chrono's range, with fewer than a billion nanoseconds.
pub open spec fn is_clock_reading(t: Timestamp) -> bool {
    &&& 0 <= t.secs <= LATEST_CLOCK_SECS
    &&& t.nanos < 1_000_000_000
}

/// Reads the system clock through `chrono::Utc::now`, taking the instant as
/// whole seconds and subsecond nanoseconds. Which instant it is depends on
/// when the call is made and is not stated. What chrono's source shows of
/// every outcome is stated: `Utc::now` takes the time since the Unix epoch
/// as a `Duration` (a time before the epoch panics there), whose subsecond
/// nanoseconds are below a billion, and builds the instant with
/// `DateTime::from_timestamp(..).unwrap()`, which holds only instants within
/// chrono's range.
#[verifier::external_body]
pub fn utc_now() -> (t: Timestamp)
    ensures
        is_clock_reading(t),
{
    let now = chrono::Utc::now();
    Timestamp { secs: now.timestamp(), nanos: now.timestamp_subsec_nanos() }
}

/// A choice as a new poll is submitted with it.
#[derive(Clone, Debug, PartialEq, Eq)]
pub struct NewPollChoice {
    pub name: String,
}

/// A poll as it is submitted for creation.
#[derive(Clone, Debug, PartialEq, Eq)]
pub struct NewPoll {
    pub name: String,
    pub description: Option<String>,
    pub end_date: Timestamp,
    pub choices: Vec<NewPollChoice>,
}

/// A stored choice of a poll.
#[derive(Clone, Debug, PartialEq, Eq)]
pub struct PollChoice {
    pub id: u128,
    pub name: String,
    pub created_at: Timestamp,
}

/// A stored poll with its choices.
#[derive(Clone, Debug, PartialEq, Eq)]
pub struct Poll {
    pub id: u128,
    pub name: String,
    pub description: Option<String>,
    pub created_at: Timestamp,
    pub end_date: Timestamp,
    pub choices: Vec<PollChoice>,
}

impl Poll {
    /// The poll offers a choice with this identifier.
    pub open spec fn has_choice(self, choice: u128) -> bool {
        exists|i: int| 0 <= i < self.choices@.len() && #[trigger] self.choices@[i].id == choice
    }

    /// Looks for the choice among the poll's choices.
    pub fn find_choice(&self, choice: u128) -> (found: bool)
        ensures
            found == self.has_choice(choice),
    {
        let n = self.choices.len();
        for i in 0..n
            invariant
                n == self.choices@.len(),
                forall|j: int| 0 <= j < i ==> #[trigger] self.choices@[j].id != choice,
        {
            if self.choices[i].id == choice {
                return true;
            }
        }
        false
    }
}

/// The number of votes that a choice of a poll received.
#[derive(Clone, Copy, Debug, PartialEq, Eq, Structural)]
pub struct PollResults {
    pub poll_id: u128,
    pub choice_id: u128,
    pub vote_count: Option<i64>,
}

/// What the creation of a poll answers: the new poll's identifier and name.
#[derive(Clone, Debug, PartialEq, Eq)]
pub struct CreatedPoll {
    pub id: u128,
    pub name: String,
}

/// A stored vote.
#[derive(Clone, Copy, Debug, PartialEq, Eq, Structural)]
pub struct PollVote {
    pub id: u128,
    pub poll_id: u128,
    pub choice_id: u128,
    pub created_at: Timestamp,
}

/// The poll and the choice that a vote request names.
#[derive(Clone, Copy, Debug, PartialEq, Eq, Structural)]
pub struct VotePath {
    pub id: u128,
    pub choice: u128,
}

} // verus!
