//! The order of the steps that a shielded request goes through: starting attempts,
//! judging their responses, reading their streams, and settling their failures.
//!
//! The caller performs one action at a time and hands back what came of it. What a
//! step comes to is decided by [`crate::shielded_run::ShieldedRun`].

use crate::retry::ShieldedRetryCause;
use crate::shielded_run::StartedStep;
use vstd::prelude::*;

verus! {

/// Where the attempts of a request are.
#[derive(Clone, Copy, Debug, PartialEq, Eq, Structural)]
pub enum AttemptStage {
    /// None was made yet.
    Idle,
    /// It is looked at whether there is time for one.
    CheckingTime,
    /// One is started.
    Starting,
    /// The beginning of a response is judged.
    Judging,
    /// The stream of a response is read.
    Aggregating,
    /// What follows a failure is decided.
    Settling,
    /// No more are made.
    Ended,
}

/// What came of an action.
#[derive(Clone, Copy, Debug, PartialEq, Eq, Structural)]
pub enum AttemptEvent {
    /// The request comes in, with an attempt that has begun or without.
    Came { has_attempt: bool },
    /// There is time for an attempt.
    Permitted,
    /// There is none.
    Late,
    /// The attempt has a response.
    Began,
    /// The attempt has none.
    NotBegun,
    /// The beginning of the response was judged. `begins_only` says that the rest is
    /// done elsewhere, and `relays` that the stream goes to the client as it comes.
    Judged { step: StartedStep, begins_only: bool, relays: bool },
    /// The stream was read.
    Aggregated,
    /// The stream could not be read.
    NotAggregated,
    /// The failure was settled: another attempt follows, or none.
    Settled { retry: bool },
}

/// What is done next.
#[derive(Clone, Copy, Debug, PartialEq, Eq, Structural)]
pub enum AttemptAction {
    CheckTime,
    Start,
    Judge,
    Aggregate,
    /// Decide what follows an attempt without a response.
    SettleStart,
    /// Decide what follows a status that may go away.
    SettleStatus { cause: ShieldedRetryCause },
    /// Decide what follows a stream that could not be read.
    SettleStream,
    /// Hand the attempt over to be finished elsewhere.
    HandOver,
    /// Hand the stream on as it comes.
    Relay,
    /// Hand the response on as it is.
    ForwardTerminal,
    /// Refuse the response: it is no stream, or it came too late to be handed on.
    Refuse { is_stream_missing: bool },
    /// Accept the answer.
    Accept,
    /// Give the request up.
    GiveUp,
    /// Nothing: what came does not belong here.
    Nothing,
}

/// What follows the judgement of a response.
pub open spec fn after_judgement(step: StartedStep, begins_only: bool, relays: bool) -> (
    AttemptStage,
    AttemptAction,
) {
    match step {
        StartedStep::Aggregate => if begins_only {
            (AttemptStage::Ended, AttemptAction::HandOver)
        } else if relays {
            (AttemptStage::Ended, AttemptAction::Relay)
        } else {
            (AttemptStage::Aggregating, AttemptAction::Aggregate)
        },
        StartedStep::RetryableStatus(cause) => (
            AttemptStage::Settling,
            AttemptAction::SettleStatus { cause },
        ),
        StartedStep::TerminalForward => (AttemptStage::Ended, AttemptAction::ForwardTerminal),
        StartedStep::RefusedStatus => (
            AttemptStage::Ended,
            AttemptAction::Refuse { is_stream_missing: false },
        ),
        StartedStep::NotAStream => (
            AttemptStage::Ended,
            AttemptAction::Refuse { is_stream_missing: true },
        ),
    }
}

/// What follows an event. An event that does not belong to a stage changes nothing.
pub open spec fn attempt_flow(stage: AttemptStage, event: AttemptEvent) -> (
    AttemptStage,
    AttemptAction,
) {
    match (stage, event) {
        (AttemptStage::Idle, AttemptEvent::Came { has_attempt }) => if has_attempt {
            (AttemptStage::Judging, AttemptAction::Judge)
        } else {
            (AttemptStage::CheckingTime, AttemptAction::CheckTime)
        },
        (AttemptStage::CheckingTime, AttemptEvent::Permitted) => (
            AttemptStage::Starting,
            AttemptAction::Start,
        ),
        (AttemptStage::CheckingTime, AttemptEvent::Late) => (
            AttemptStage::Ended,
            AttemptAction::GiveUp,
        ),
        (AttemptStage::Starting, AttemptEvent::Began) => (
            AttemptStage::Judging,
            AttemptAction::Judge,
        ),
        (AttemptStage::Starting, AttemptEvent::NotBegun) => (
            AttemptStage::Settling,
            AttemptAction::SettleStart,
        ),
        (
            AttemptStage::Judging,
            AttemptEvent::Judged { step, begins_only, relays },
        ) => after_judgement(step, begins_only, relays),
        (AttemptStage::Aggregating, AttemptEvent::Aggregated) => (
            AttemptStage::Ended,
            AttemptAction::Accept,
        ),
        (AttemptStage::Aggregating, AttemptEvent::NotAggregated) => (
            AttemptStage::Settling,
            AttemptAction::SettleStream,
        ),
        (AttemptStage::Settling, AttemptEvent::Settled { retry }) => if retry {
            (AttemptStage::CheckingTime, AttemptAction::CheckTime)
        } else {
            (AttemptStage::Ended, AttemptAction::GiveUp)
        },
        _ => (stage, AttemptAction::Nothing),
    }
}

/// Decides what is done next in a shielded request.
pub fn advance_attempts(stage: AttemptStage, event: AttemptEvent) -> (next: (
    AttemptStage,
    AttemptAction,
))
    ensures
        next == attempt_flow(stage, event),
{
    match (stage, event) {
        (AttemptStage::Idle, AttemptEvent::Came { has_attempt: true }) => (
            AttemptStage::Judging,
            AttemptAction::Judge,
        ),
        (AttemptStage::Idle, AttemptEvent::Came { has_attempt: false }) => (
            AttemptStage::CheckingTime,
            AttemptAction::CheckTime,
        ),
        (AttemptStage::CheckingTime, AttemptEvent::Permitted) => (
            AttemptStage::Starting,
            AttemptAction::Start,
        ),
        (AttemptStage::CheckingTime, AttemptEvent::Late) => (
            AttemptStage::Ended,
            AttemptAction::GiveUp,
        ),
        (AttemptStage::Starting, AttemptEvent::Began) => (
            AttemptStage::Judging,
            AttemptAction::Judge,
        ),
        (AttemptStage::Starting, AttemptEvent::NotBegun) => (
            AttemptStage::Settling,
            AttemptAction::SettleStart,
        ),
        (AttemptStage::Judging, AttemptEvent::Judged { step, begins_only, relays }) => match step {
            StartedStep::Aggregate => {
                if begins_only {
                    return (AttemptStage::Ended, AttemptAction::HandOver);
                }
                if relays {
                    return (AttemptStage::Ended, AttemptAction::Relay);
                }
                (AttemptStage::Aggregating, AttemptAction::Aggregate)
            },
            StartedStep::RetryableStatus(cause) => (
                AttemptStage::Settling,
                AttemptAction::SettleStatus { cause },
            ),
            StartedStep::TerminalForward => (AttemptStage::Ended, AttemptAction::ForwardTerminal),
            StartedStep::RefusedStatus => (
                AttemptStage::Ended,
                AttemptAction::Refuse { is_stream_missing: false },
            ),
            StartedStep::NotAStream => (
                AttemptStage::Ended,
                AttemptAction::Refuse { is_stream_missing: true },
            ),
        },
        (AttemptStage::Aggregating, AttemptEvent::Aggregated) => (
            AttemptStage::Ended,
            AttemptAction::Accept,
        ),
        (AttemptStage::Aggregating, AttemptEvent::NotAggregated) => (
            AttemptStage::Settling,
            AttemptAction::SettleStream,
        ),
        (AttemptStage::Settling, AttemptEvent::Settled { retry: true }) => (
            AttemptStage::CheckingTime,
            AttemptAction::CheckTime,
        ),
        (AttemptStage::Settling, AttemptEvent::Settled { retry: false }) => (
            AttemptStage::Ended,
            AttemptAction::GiveUp,
        ),
        _ => (stage, AttemptAction::Nothing),
    }
}

// ---------------------------------------------------------------------------
// What holds all the way
// ---------------------------------------------------------------------------

/// Where the attempts are after some events.
pub open spec fn stage_after(events: Seq<AttemptEvent>) -> AttemptStage
    decreases events.len(),
{
    if events.len() == 0 {
        AttemptStage::Idle
    } else {
        attempt_flow(stage_after(events.drop_last()), events.last()).0
    }
}

/// What is done after some events.
pub open spec fn action_after(events: Seq<AttemptEvent>) -> AttemptAction {
    attempt_flow(stage_after(events.drop_last()), events.last()).1
}

/// The last judgement of a response among some events, where one was asked for.
pub open spec fn last_judgement(events: Seq<AttemptEvent>) -> Option<StartedStep>
    decreases events.len(),
{
    if events.len() == 0 {
        None
    } else {
        match (stage_after(events.drop_last()), events.last()) {
            (AttemptStage::Judging, AttemptEvent::Judged { step, .. }) => Some(step),
            _ => last_judgement(events.drop_last()),
        }
    }
}

/// Whether an action answers the client.
pub open spec fn ends_attempts(action: AttemptAction) -> bool {
    match action {
        AttemptAction::HandOver
        | AttemptAction::Relay
        | AttemptAction::ForwardTerminal
        | AttemptAction::Refuse { .. }
        | AttemptAction::Accept
        | AttemptAction::GiveUp => true,
        _ => false,
    }
}

/// Once a request is answered, handed over or given up, nothing more is done.
pub proof fn attempts_end_once(events: Seq<AttemptEvent>, later: AttemptEvent)
    requires
        events.len() > 0,
        ends_attempts(action_after(events)),
    ensures
        stage_after(events.push(later)) == AttemptStage::Ended,
        action_after(events.push(later)) == AttemptAction::Nothing,
{
    assert(events.push(later).drop_last() =~= events);
}

/// Only what was judged to be a stream is read.
proof fn reading_follows_judgement(events: Seq<AttemptEvent>)
    ensures
        stage_after(events) == AttemptStage::Aggregating ==> last_judgement(events) == Some(
            StartedStep::Aggregate,
        ),
    decreases events.len(),
{
    if events.len() > 0 {
        reading_follows_judgement(events.drop_last());
    }
}

/// An answer that is accepted, and a stream that is handed on, comes from a response
/// that was judged to be a stream.
pub proof fn only_streams_are_accepted(events: Seq<AttemptEvent>)
    requires
        events.len() > 0,
        ({
            ||| action_after(events) == AttemptAction::Accept
            ||| action_after(events) == AttemptAction::Relay
            ||| action_after(events) == AttemptAction::HandOver
        }),
    ensures
        last_judgement(events) == Some(StartedStep::Aggregate),
{
    reading_follows_judgement(events.drop_last());
}

/// No attempt is started unless there is time for it.
pub proof fn attempts_start_in_time(events: Seq<AttemptEvent>)
    requires
        events.len() > 0,
        action_after(events) == AttemptAction::Start,
    ensures
        events.last() == AttemptEvent::Permitted,
{
}

/// Whether a request is given up: there is no time left, or a failure is not
/// followed by another attempt.
pub open spec fn says_no(event: AttemptEvent) -> bool {
    event == AttemptEvent::Late || event == (AttemptEvent::Settled { retry: false })
}

/// A request is given up where something says no, and only there.
pub proof fn requests_are_given_up_for_a_reason(events: Seq<AttemptEvent>)
    requires
        events.len() > 0,
    ensures
        action_after(events) == AttemptAction::GiveUp ==> says_no(events.last()),
        action_after(events) == AttemptAction::CheckTime ==> !says_no(events.last()),
{
}

/// An attempt goes from its time to its start, from its start to the judgement of its
/// response, and on to what the judgement asks for; every failure is settled, and a
/// failure that is retried begins again with the time.
pub proof fn attempts_go_step_by_step(cause: ShieldedRetryCause, begins_only: bool, relays: bool)
    ensures
        attempt_flow(AttemptStage::Idle, AttemptEvent::Came { has_attempt: true }).1
            is Judge,
        attempt_flow(AttemptStage::Idle, AttemptEvent::Came { has_attempt: false }).1 is CheckTime,
        attempt_flow(AttemptStage::CheckingTime, AttemptEvent::Permitted) == (
            AttemptStage::Starting,
            AttemptAction::Start,
        ),
        attempt_flow(AttemptStage::CheckingTime, AttemptEvent::Late) == (
            AttemptStage::Ended,
            AttemptAction::GiveUp,
        ),
        attempt_flow(AttemptStage::Starting, AttemptEvent::Began).1 is Judge,
        attempt_flow(AttemptStage::Starting, AttemptEvent::NotBegun).1 is SettleStart,
        attempt_flow(AttemptStage::Aggregating, AttemptEvent::Aggregated).1 is Accept,
        attempt_flow(AttemptStage::Aggregating, AttemptEvent::NotAggregated).1 is SettleStream,
        attempt_flow(AttemptStage::Settling, AttemptEvent::Settled { retry: true }) == (
            AttemptStage::CheckingTime,
            AttemptAction::CheckTime,
        ),
        attempt_flow(AttemptStage::Settling, AttemptEvent::Settled { retry: false }) == (
            AttemptStage::Ended,
            AttemptAction::GiveUp,
        ),
        after_judgement(StartedStep::Aggregate, false, false) == (
            AttemptStage::Aggregating,
            AttemptAction::Aggregate,
        ),
        after_judgement(StartedStep::Aggregate, true, relays).1 is HandOver,
        after_judgement(StartedStep::Aggregate, false, true).1 is Relay,
        after_judgement(StartedStep::RetryableStatus(cause), begins_only, relays) == (
            AttemptStage::Settling,
            AttemptAction::SettleStatus { cause },
        ),
        after_judgement(StartedStep::TerminalForward, begins_only, relays).1 is ForwardTerminal,
        after_judgement(StartedStep::RefusedStatus, begins_only, relays).1 == (
        AttemptAction::Refuse { is_stream_missing: false }),
        after_judgement(StartedStep::NotAStream, begins_only, relays).1 == (AttemptAction::Refuse {
            is_stream_missing: true,
        }),
{
}

/// A response that was judged is judged as it was judged last.
pub proof fn the_last_judgement_counts(events: Seq<AttemptEvent>, event: AttemptEvent)
    ensures
        last_judgement(Seq::empty()) is None,
        stage_after(events) is Judging ==> (event matches AttemptEvent::Judged { step, .. }
            ==> last_judgement(events.push(event)) == Some(step)),
        !(event is Judged) ==> last_judgement(events.push(event)) == last_judgement(events),
        !(stage_after(events) is Judging) ==> last_judgement(events.push(event))
            == last_judgement(events),
{
    assert(events.push(event).drop_last() =~= events);
}

} // verus!
