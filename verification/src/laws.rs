//! Properties of the routes that hold across their steps.

use crate::domain::{is_clock_reading, CreatedPoll, NewPoll, Poll, PollVote, Timestamp, VotePath};
use crate::helpers::spec_parse_client_ip;
use crate::repositories::{CreateAction, CreateEvent, CreatePollFlow, CreateStage};
use crate::validation::{
    choices_are_valid, end_date_is_valid, name_is_valid, poll_is_valid, validation_outcome,
};
use crate::routes::{
    already_voted, create_poll_outcome, invalid_choice, poll_expired, remote_text, ResultsAction, ResultsEvent, ResultsFlow, ResultsStage,
    VoteAction, VoteEvent, VoteFlow, VoteStage,
};
use vstd::prelude::*;

verus! {

/// A vote is recorded in a single way: the flow has asked for the vote
/// already cast from the client's network, and the store reported none. The
/// vote recorded is the one that the request names, from that network.
pub proof fn lemma_insert_only_after_no_existing_vote(
    flow: VoteFlow,
    event: VoteEvent,
    now: Timestamp,
)
    requires
        flow.accepts(event),
        flow.transition(event, now).1 is InsertVote,
    ensures
        flow.stage is AwaitingExistingVote,
        event == VoteEvent::ExistingVoteFetched(None),
        flow.transition(event, now).1 == (VoteAction::InsertVote {
            poll_id: flow.path.id,
            choice_id: flow.path.choice,
            ip: flow.stage->ip,
        }),
{
}

/// A vote is recorded only for an eligible request: starting from the
/// request, the poll was found, it had not expired when it was checked, it
/// offers the chosen choice, the client's address was read as a network,
/// and no vote from that network had been cast in the poll.
pub proof fn lemma_vote_recorded_only_when_eligible(
    path: VotePath,
    remote_addr: Option<String>,
    first: VoteEvent,
    first_at: Timestamp,
    second: VoteEvent,
    second_at: Timestamp,
)
    requires
        (VoteFlow { path, remote_addr, stage: VoteStage::AwaitingPoll }).accepts(first),
        (VoteFlow { path, remote_addr, stage: VoteStage::AwaitingPoll }).transition(
            first,
            first_at,
        ).0.accepts(second),
        (VoteFlow { path, remote_addr, stage: VoteStage::AwaitingPoll }).transition(
            first,
            first_at,
        ).0.transition(second, second_at).1 is InsertVote,
    ensures
        ({
            let start = VoteFlow { path, remote_addr, stage: VoteStage::AwaitingPoll };
            let (mid, _) = start.transition(first, first_at);
            let (_, act) = mid.transition(second, second_at);
            &&& first matches VoteEvent::PollFetched(Some(p)) && !p.end_date.spec_before(first_at)
                && p.has_choice(path.choice)
            &&& spec_parse_client_ip(remote_text(remote_addr)) matches Ok(ip) && act
                == (VoteAction::InsertVote { poll_id: path.id, choice_id: path.choice, ip })
            &&& second == VoteEvent::ExistingVoteFetched(None)
        }),
{
    let start = VoteFlow { path, remote_addr, stage: VoteStage::AwaitingPoll };
    let (mid, _) = start.transition(first, first_at);
    lemma_insert_only_after_no_existing_vote(mid, second, second_at);
}

/// A client votes at most once in a poll: once a vote from its network is
/// known, the request is refused as a repeated vote and the flow ends
/// without recording anything.
pub proof fn lemma_repeat_vote_refused(flow: VoteFlow, existing: PollVote, now: Timestamp)
    requires
        flow.stage is AwaitingExistingVote,
    ensures
        flow.transition(VoteEvent::ExistingVoteFetched(Some(existing)), now).1 == VoteAction::Respond(
            Err(already_voted()),
        ),
        flow.transition(VoteEvent::ExistingVoteFetched(Some(existing)), now).0.stage
            is Finished,
        already_voted().spec_status() == 400,
{
}

/// A vote is answered with success exactly when it has been recorded.
pub proof fn lemma_vote_success_only_after_insert(flow: VoteFlow, event: VoteEvent, now: Timestamp)
    requires
        flow.accepts(event),
    ensures
        flow.transition(event, now).1 == VoteAction::Respond(Ok(()))
            <==> (flow.stage is AwaitingInsert && event is VoteInserted),
{
}

/// The results of a poll are given only once the poll has ended: starting
/// from the request, the poll was found and its end date does not lie after
/// the instant it was checked at, and what is given is what the store gave.
pub proof fn lemma_results_only_for_ended_polls(
    poll_id: u128,
    first: ResultsEvent,
    first_at: Timestamp,
    second: ResultsEvent,
    second_at: Timestamp,
)
    requires
        (ResultsFlow { poll_id, stage: ResultsStage::AwaitingPoll }).accepts(first),
        (ResultsFlow { poll_id, stage: ResultsStage::AwaitingPoll }).transition(
            first,
            first_at,
        ).0.accepts(second),
        (ResultsFlow { poll_id, stage: ResultsStage::AwaitingPoll }).transition(
            first,
            first_at,
        ).0.transition(second, second_at).1 matches ResultsAction::Respond(Ok(_)),
    ensures
        first matches ResultsEvent::PollFetched(Some(p)) && !first_at.spec_before(p.end_date),
        (ResultsFlow { poll_id, stage: ResultsStage::AwaitingPoll }).transition(
            first,
            first_at,
        ).1 == (ResultsAction::FetchResults { poll_id }),
        second matches ResultsEvent::ResultsFetched(results) && (ResultsFlow {
            poll_id,
            stage: ResultsStage::AwaitingPoll,
        }).transition(first, first_at).0.transition(second, second_at).1
            == ResultsAction::Respond(Ok(results)),
{
}

/// A creation that goes through every step answers the identifier that the
/// store gave the poll and the name that was submitted.
pub proof fn lemma_creation_answers_inserted_poll(
    new_poll: NewPoll,
    start_date: Timestamp,
    poll_id: u128,
)
    ensures
        ({
            let f0 = CreatePollFlow {
                new_poll,
                start_date,
                stage: CreateStage::AwaitingTransaction,
            };
            let (f1, a1) = f0.transition(CreateEvent::TransactionBegun);
            let (f2, a2) = f1.transition(CreateEvent::PollInserted { poll_id });
            let (f3, a3) = f2.transition(CreateEvent::ChoicesInserted);
            let (f4, a4) = f3.transition(CreateEvent::Committed);
            &&& a1 == CreateAction::InsertPoll
            &&& a2 == (CreateAction::InsertChoices { poll_id })
            &&& a3 == CreateAction::Commit
            &&& a4 == CreateAction::Respond(Ok(CreatedPoll { id: poll_id, name: new_poll.name }))
            &&& f4.stage is Finished
        }),
{
}

/// A creation ends with success only from the commit: a failure of the
/// store at any step ends it with an unexpected error, answered with
/// status 500.
pub proof fn lemma_creation_failure_is_unexpected(flow: CreatePollFlow)
    requires
        flow.accepts(CreateEvent::StoreFailed),
    ensures
        flow.transition(CreateEvent::StoreFailed).1 matches CreateAction::Respond(
            Err(e),
        ) && e is UnexpectedError && e.spec_status() == 500,
        flow.transition(CreateEvent::StoreFailed).0.stage is Finished,
{
}

/// A vote that the store fails on is answered as an unexpected error, with
/// status 500; a refusal decided from what the store gave is answered with
/// status 400 or 404, but for a client address that cannot be read, which
/// is an unexpected error.
pub proof fn lemma_vote_refusals_status(flow: VoteFlow, event: VoteEvent, now: Timestamp)
    requires
        flow.accepts(event),
        flow.transition(event, now).1 matches VoteAction::Respond(Err(_)),
    ensures
        ({
            let e = flow.transition(event, now).1->Respond_0->Err_0;
            &&& event is StoreFailed ==> e.spec_status() == 500
            &&& (event is PollFetched || event is ExistingVoteFetched) ==> (e.spec_status() == 400
                || e.spec_status() == 404 || e == crate::routes::client_ip_unreadable())
        }),
{
}

/// Instants are strictly and totally ordered: no instant lies before
/// itself, the order is transitive, and of two different instants one lies
/// before the other.
pub proof fn lemma_timestamp_order(a: Timestamp, b: Timestamp, c: Timestamp)
    ensures
        !a.spec_before(a),
        a.spec_before(b) && b.spec_before(c) ==> a.spec_before(c),
        a != b ==> a.spec_before(b) || b.spec_before(a),
        !(a.spec_before(b) && b.spec_before(a)),
{
}

/// At every instant a poll is open to votes or its results can be read,
/// and at its end date both: a vote is refused as expired only after the
/// end date, results are refused as still active only before it.
pub proof fn lemma_poll_open_or_closed(
    vote: VoteFlow,
    results: ResultsFlow,
    poll: crate::domain::Poll,
    now: Timestamp,
)
    requires
        vote.stage is AwaitingPoll,
        results.stage is AwaitingPoll,
    ensures
        !(vote.transition(VoteEvent::PollFetched(Some(poll)), now).1 == VoteAction::Respond(
            Err(crate::routes::poll_expired()),
        ) && results.transition(ResultsEvent::PollFetched(Some(poll)), now).1
            == ResultsAction::Respond(Err(crate::routes::poll_still_active()))),
        poll.end_date == now ==> results.transition(ResultsEvent::PollFetched(Some(poll)), now).1
            == (ResultsAction::FetchResults { poll_id: results.poll_id }),
        poll.end_date == now ==> vote.transition(VoteEvent::PollFetched(Some(poll)), now).1
            != VoteAction::Respond(Err(crate::routes::poll_expired())),
{
}

/// A poll offers every choice on its list, at whatever position the
/// choice stands.
pub proof fn lemma_listed_choice_is_offered(p: Poll, i: int)
    requires
        0 <= i < p.choices@.len(),
    ensures
        p.has_choice(p.choices@[i].id),
        p.has_choice(p.choices@.last().id),
{
    assert(p.choices@[p.choices@.len() - 1] == p.choices@.last());
}

/// A poll offers only the choices on its list.
pub proof fn lemma_unlisted_choice_is_not_offered(p: Poll, choice: u128)
    requires
        forall|i: int| 0 <= i < p.choices@.len() ==> p.choices@[i].id != choice,
    ensures
        !p.has_choice(choice),
{
}

/// A vote for a choice that stands anywhere on an open poll's list, from a
/// readable address, goes on to ask for the vote already cast from that
/// network; a vote for a choice on no position of the list is refused.
pub proof fn lemma_vote_for_listed_choice_goes_on(flow: VoteFlow, p: Poll, i: int, now: Timestamp)
    requires
        flow.stage is AwaitingPoll,
        0 <= i < p.choices@.len(),
        p.choices@[i].id == flow.path.choice,
        !p.end_date.spec_before(now),
        spec_parse_client_ip(remote_text(flow.remote_addr)) is Ok,
    ensures
        flow.transition(VoteEvent::PollFetched(Some(p)), now).1 == (VoteAction::FetchExistingVote {
            poll_id: p.id,
            ip: spec_parse_client_ip(remote_text(flow.remote_addr))->Ok_0,
        }),
{
    lemma_listed_choice_is_offered(p, i);
}

/// A vote for a choice that no entry of an open poll's list has is refused
/// as an invalid choice.
pub proof fn lemma_vote_for_unlisted_choice_refused(flow: VoteFlow, p: Poll, now: Timestamp)
    requires
        flow.stage is AwaitingPoll,
        forall|i: int| 0 <= i < p.choices@.len() ==> p.choices@[i].id != flow.path.choice,
        !p.end_date.spec_before(now),
    ensures
        flow.transition(VoteEvent::PollFetched(Some(p)), now).1 == VoteAction::Respond(
            Err(invalid_choice()),
        ),
{
    lemma_unlisted_choice_is_not_offered(p, flow.path.choice);
}

/// A vote in a poll whose end date lies before the instant of the request is
/// refused as expired, whatever the choice and the address; one in a poll
/// whose end date is not before it is never refused as expired.
pub proof fn lemma_expired_poll_refused(flow: VoteFlow, p: Poll, now: Timestamp)
    requires
        flow.stage is AwaitingPoll,
    ensures
        p.end_date.spec_before(now) ==> flow.transition(VoteEvent::PollFetched(Some(p)), now)
            == (flow.at_stage(VoteStage::Finished), VoteAction::Respond(Err(poll_expired()))),
        !p.end_date.spec_before(now) ==> flow.transition(VoteEvent::PollFetched(Some(p)), now).1
            != VoteAction::Respond(Err(poll_expired())),
{
}

/// Whatever results the store gives for a poll that has ended, they are
/// the answer, unchanged, and the flow ends.
pub proof fn lemma_results_always_answered(
    flow: ResultsFlow,
    results: Vec<crate::domain::PollResults>,
    now: Timestamp,
)
    requires
        flow.stage is AwaitingResults,
    ensures
        flow.transition(ResultsEvent::ResultsFetched(results), now) == (
            ResultsFlow { poll_id: flow.poll_id, stage: ResultsStage::Finished },
            ResultsAction::Respond(Ok(results)),
        ),
{
}

/// A poll that is valid at an instant is valid at every earlier instant,
/// and a poll with a valid name and number of choices is valid exactly when
/// its end date is not before the instant of validation.
pub proof fn lemma_validity_follows_the_end_date(p: NewPoll, earlier: Timestamp, later: Timestamp)
    requires
        !later.spec_before(earlier),
    ensures
        poll_is_valid(p, later) ==> poll_is_valid(p, earlier),
        name_is_valid(p) && choices_are_valid(p) ==> (poll_is_valid(p, later) <==> !p.end_date.spec_before(later)),
        forall|r: Result<(), crate::validation::ValidationErrors>|
            #[trigger] validation_outcome(p, later, r) && name_is_valid(p) && choices_are_valid(p)
                && !p.end_date.spec_before(later) ==> r is Ok,
{
}

/// The poll is created with the creation date handed to it, whatever the
/// poll: two valid polls started with the same instant get the same
/// creation date, and it is that instant.
pub proof fn lemma_creation_date_is_the_given_instant(
    p1: NewPoll,
    p2: NewPoll,
    validated_at: Timestamp,
    start_date: Timestamp,
    r1: (crate::repositories::CreatePollFlow, crate::repositories::CreateAction),
    r2: (crate::repositories::CreatePollFlow, crate::repositories::CreateAction),
)
    requires
        create_poll_outcome(p1, validated_at, start_date, r1),
        create_poll_outcome(p2, validated_at, start_date, r2),
        poll_is_valid(p1, validated_at),
        poll_is_valid(p2, validated_at),
    ensures
        r1.0.start_date == start_date,
        r2.0.start_date == r1.0.start_date,
{
}

/// Every instant that the clock gives lies at or after the Unix epoch and
/// has fewer than a billion nanoseconds, so no creation date or validation
/// instant lies before the epoch.
pub proof fn lemma_clock_readings_follow_the_epoch(t: Timestamp)
    requires
        is_clock_reading(t),
    ensures
        !t.spec_before(Timestamp { secs: 0, nanos: 0 }),
        t.nanos < 1_000_000_000,
{
}

} // verus!
