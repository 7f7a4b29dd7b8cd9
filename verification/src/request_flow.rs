//! The course of a request, from its arrival to its answer.
//!
//! The proxy performs an action and hands back what came of it; here it is decided
//! what comes next. What the actions need is decided elsewhere: `handling` says what
//! is refused and how, `preparation` in what form a request is sent on.

use crate::handling::{
    admission_route, body_admission, AdmissionPermitKind, BodyAdmissionStep, HandlerStep,
};
use vstd::prelude::*;

verus! {

/// What a prepared request still has to go through.
#[derive(Clone, Copy, Debug, PartialEq, Eq, Structural)]
pub struct FlowPlan {
    /// The model stands for a workflow, which answers in its place.
    pub workflow_alias: bool,
    /// A guard decides before the request is sent.
    pub guarded: bool,
    /// The profile has several endpoints.
    pub failover: bool,
    /// The request is a chat that is shielded.
    pub intercepted: bool,
}

/// Where a request is.
#[derive(Clone, Copy, Debug, PartialEq, Eq, Structural)]
pub enum FlowStage {
    /// Nothing was done yet.
    Arrived,
    /// It asks for capacity.
    Admitting { kind: AdmissionPermitKind },
    /// Its body is read.
    ReadingBody { held: AdmissionPermitKind },
    /// It waits for the restart of its upstream, and holds nothing.
    WaitingForRestart,
    /// It asks for the capacity of its profile.
    AcquiringForProfile,
    /// It is prepared.
    Preparing { held: AdmissionPermitKind },
    /// A workflow answers it.
    RunningWorkflow { held: AdmissionPermitKind },
    /// Its guard decides.
    Guarding { held: AdmissionPermitKind, plan: FlowPlan },
    /// One of its endpoints is selected.
    SelectingEndpoint { held: AdmissionPermitKind, plan: FlowPlan },
    /// It is written for its endpoint.
    Rendering { held: AdmissionPermitKind, plan: FlowPlan },
    /// It is sent on, and answered with what comes back.
    Forwarding { held: AdmissionPermitKind, plan: FlowPlan },
    /// It was answered.
    Answered,
}

/// What came of an action.
#[derive(Clone, Copy, Debug, PartialEq, Eq, Structural)]
pub enum FlowEvent {
    /// The request came in.
    Came { step: HandlerStep, config_readable: bool, is_models_request: bool, has_profile_limits: bool },
    /// Capacity was acquired.
    Acquired,
    /// The body was read, and it is known which profile serves the request.
    BodyRead { is_models_request: bool, restart_queue_enabled: bool },
    /// The upstream has restarted, or did not have to.
    RestartOver,
    /// The request was prepared.
    Prepared { plan: FlowPlan },
    /// The workflow answered.
    WorkflowAnswered,
    /// The guard lets the request through.
    GuardPassed,
    /// An endpoint was selected.
    EndpointSelected,
    /// The request was written for its endpoint.
    Rendered,
    /// A response came, and goes to the client.
    Responded,
    /// What was asked for is refused.
    Refused,
}

/// What is done next.
#[derive(Clone, Copy, Debug, PartialEq, Eq, Structural)]
pub enum FlowAction {
    AnswerDebugSummary,
    Acquire { kind: AdmissionPermitKind },
    ReadBody,
    /// Give back what is held, and wait for the restart of the upstream.
    ReleaseAndWaitForRestart,
    /// Acquire the capacity of the profile, then give back what is held.
    AcquireForProfile,
    Prepare,
    RunWorkflow,
    AskGuard,
    SelectEndpoint,
    Render,
    ForwardShielded,
    ForwardGeneric,
    /// Hand the answer on, and note that the request is complete.
    Complete,
    /// Record the failure and answer with it.
    Fail,
    /// Nothing: what came does not belong here.
    Nothing,
}

/// Where a request that its guard has let through goes.
pub open spec fn after_guard(held: AdmissionPermitKind, plan: FlowPlan) -> (FlowStage, FlowAction) {
    if plan.failover {
        (FlowStage::SelectingEndpoint { held, plan }, FlowAction::SelectEndpoint)
    } else {
        (FlowStage::Forwarding { held, plan }, send_on(plan))
    }
}

/// How a request is sent on.
pub open spec fn send_on(plan: FlowPlan) -> FlowAction {
    if plan.intercepted {
        FlowAction::ForwardShielded
    } else {
        FlowAction::ForwardGeneric
    }
}

/// What a request that came in does first.
pub open spec fn at_the_door(
    step: HandlerStep,
    config_readable: bool,
    is_models_request: bool,
    has_profile_limits: bool,
) -> (FlowStage, FlowAction) {
    match step {
        HandlerStep::DebugSummary => (FlowStage::Answered, FlowAction::AnswerDebugSummary),
        HandlerStep::RefusePath(_) => (FlowStage::Answered, FlowAction::Fail),
        HandlerStep::Admit => if !config_readable {
            (FlowStage::Answered, FlowAction::Fail)
        } else {
            let kind = if is_models_request {
                AdmissionPermitKind::ControlPlane
            } else if has_profile_limits {
                AdmissionPermitKind::BodyRouting
            } else {
                AdmissionPermitKind::Generation
            };
            (FlowStage::Admitting { kind }, FlowAction::Acquire { kind })
        },
    }
}

/// What a request does once its body was read.
pub open spec fn with_body(
    held: AdmissionPermitKind,
    is_models_request: bool,
    restart_queue_enabled: bool,
) -> (FlowStage, FlowAction) {
    if is_models_request {
        (FlowStage::Preparing { held }, FlowAction::Prepare)
    } else if restart_queue_enabled {
        (FlowStage::WaitingForRestart, FlowAction::ReleaseAndWaitForRestart)
    } else if held is Generation {
        (FlowStage::Preparing { held }, FlowAction::Prepare)
    } else {
        (FlowStage::AcquiringForProfile, FlowAction::AcquireForProfile)
    }
}

/// What comes next. A refusal ends a request wherever it is.
pub open spec fn flow(stage: FlowStage, event: FlowEvent) -> (FlowStage, FlowAction) {
    match (stage, event) {
        (FlowStage::Answered, _) => (stage, FlowAction::Nothing),
        (_, FlowEvent::Refused) => (FlowStage::Answered, FlowAction::Fail),
        (
            FlowStage::Arrived,
            FlowEvent::Came { step, config_readable, is_models_request, has_profile_limits },
        ) => at_the_door(step, config_readable, is_models_request, has_profile_limits),
        (FlowStage::Admitting { kind }, FlowEvent::Acquired) => (
            FlowStage::ReadingBody { held: kind },
            FlowAction::ReadBody,
        ),
        (
            FlowStage::ReadingBody { held },
            FlowEvent::BodyRead { is_models_request, restart_queue_enabled },
        ) => with_body(held, is_models_request, restart_queue_enabled),
        (FlowStage::WaitingForRestart, FlowEvent::RestartOver) => (
            FlowStage::AcquiringForProfile,
            FlowAction::AcquireForProfile,
        ),
        (FlowStage::AcquiringForProfile, FlowEvent::Acquired) => (
            FlowStage::Preparing { held: AdmissionPermitKind::Generation },
            FlowAction::Prepare,
        ),
        (FlowStage::Preparing { held }, FlowEvent::Prepared { plan }) => if plan.workflow_alias {
            (FlowStage::RunningWorkflow { held }, FlowAction::RunWorkflow)
        } else if plan.guarded {
            (FlowStage::Guarding { held, plan }, FlowAction::AskGuard)
        } else {
            after_guard(held, plan)
        },
        (FlowStage::RunningWorkflow { .. }, FlowEvent::WorkflowAnswered) => (
            FlowStage::Answered,
            FlowAction::Complete,
        ),
        (FlowStage::Guarding { held, plan }, FlowEvent::GuardPassed) => after_guard(held, plan),
        (FlowStage::SelectingEndpoint { held, plan }, FlowEvent::EndpointSelected) => (
            FlowStage::Rendering { held, plan },
            FlowAction::Render,
        ),
        (FlowStage::Rendering { held, plan }, FlowEvent::Rendered) => (
            FlowStage::Forwarding { held, plan },
            send_on(plan),
        ),
        (FlowStage::Forwarding { .. }, FlowEvent::Responded) => (
            FlowStage::Answered,
            FlowAction::Complete,
        ),
        _ => (stage, FlowAction::Nothing),
    }
}

fn go_on_after_guard(held: AdmissionPermitKind, plan: FlowPlan) -> (next: (FlowStage, FlowAction))
    ensures
        next == after_guard(held, plan),
{
    if plan.failover {
        (FlowStage::SelectingEndpoint { held, plan }, FlowAction::SelectEndpoint)
    } else {
        (FlowStage::Forwarding { held, plan }, forward(plan))
    }
}

fn forward(plan: FlowPlan) -> (action: FlowAction)
    ensures
        action == send_on(plan),
{
    if plan.intercepted {
        FlowAction::ForwardShielded
    } else {
        FlowAction::ForwardGeneric
    }
}

/// Decides what comes next.
pub fn advance(stage: FlowStage, event: FlowEvent) -> (next: (FlowStage, FlowAction))
    ensures
        next == flow(stage, event),
{
    match (stage, event) {
        (FlowStage::Answered, _) => (stage, FlowAction::Nothing),
        (_, FlowEvent::Refused) => (FlowStage::Answered, FlowAction::Fail),
        (
            FlowStage::Arrived,
            FlowEvent::Came { step, config_readable, is_models_request, has_profile_limits },
        ) => match step {
            HandlerStep::DebugSummary => (FlowStage::Answered, FlowAction::AnswerDebugSummary),
            HandlerStep::RefusePath(_) => (FlowStage::Answered, FlowAction::Fail),
            HandlerStep::Admit => {
                if !config_readable {
                    return (FlowStage::Answered, FlowAction::Fail);
                }
                let kind = if is_models_request {
                    AdmissionPermitKind::ControlPlane
                } else if has_profile_limits {
                    AdmissionPermitKind::BodyRouting
                } else {
                    AdmissionPermitKind::Generation
                };
                (FlowStage::Admitting { kind }, FlowAction::Acquire { kind })
            },
        },
        (FlowStage::Admitting { kind }, FlowEvent::Acquired) => (
            FlowStage::ReadingBody { held: kind },
            FlowAction::ReadBody,
        ),
        (
            FlowStage::ReadingBody { held },
            FlowEvent::BodyRead { is_models_request, restart_queue_enabled },
        ) => {
            if is_models_request {
                return (FlowStage::Preparing { held }, FlowAction::Prepare);
            }
            if restart_queue_enabled {
                return (FlowStage::WaitingForRestart, FlowAction::ReleaseAndWaitForRestart);
            }
            match held {
                AdmissionPermitKind::Generation => (
                    FlowStage::Preparing { held },
                    FlowAction::Prepare,
                ),
                _ => (FlowStage::AcquiringForProfile, FlowAction::AcquireForProfile),
            }
        },
        (FlowStage::WaitingForRestart, FlowEvent::RestartOver) => (
            FlowStage::AcquiringForProfile,
            FlowAction::AcquireForProfile,
        ),
        (FlowStage::AcquiringForProfile, FlowEvent::Acquired) => (
            FlowStage::Preparing { held: AdmissionPermitKind::Generation },
            FlowAction::Prepare,
        ),
        (FlowStage::Preparing { held }, FlowEvent::Prepared { plan }) => {
            if plan.workflow_alias {
                (FlowStage::RunningWorkflow { held }, FlowAction::RunWorkflow)
            } else if plan.guarded {
                (FlowStage::Guarding { held, plan }, FlowAction::AskGuard)
            } else {
                go_on_after_guard(held, plan)
            }
        },
        (FlowStage::RunningWorkflow { .. }, FlowEvent::WorkflowAnswered) => (
            FlowStage::Answered,
            FlowAction::Complete,
        ),
        (FlowStage::Guarding { held, plan }, FlowEvent::GuardPassed) => go_on_after_guard(
            held,
            plan,
        ),
        (FlowStage::SelectingEndpoint { held, plan }, FlowEvent::EndpointSelected) => (
            FlowStage::Rendering { held, plan },
            FlowAction::Render,
        ),
        (FlowStage::Rendering { held, plan }, FlowEvent::Rendered) => (
            FlowStage::Forwarding { held, plan },
            forward(plan),
        ),
        (FlowStage::Forwarding { .. }, FlowEvent::Responded) => (
            FlowStage::Answered,
            FlowAction::Complete,
        ),
        _ => (stage, FlowAction::Nothing),
    }
}

// ---------------------------------------------------------------------------
// Live requests
// ---------------------------------------------------------------------------

/// How a live request is marked.
#[derive(Clone, Copy, Debug, PartialEq, Eq, Structural)]
pub enum LiveMark {
    /// It is under way, with the capacity that it was admitted with.
    Admitted,
    /// It is complete, and no longer live.
    Completed,
    /// It has failed, and is no longer live.
    Failed,
}

/// What is noted of a request among those that are live.
#[derive(Clone, Copy, Debug, PartialEq, Eq, Structural)]
pub struct LiveNote {
    /// The request is listed from now on. What else is noted comes after that.
    pub registers: bool,
    pub mark: Option<LiveMark>,
}

/// What is noted of a request among those that are live, with what came and what is
/// done next. A request for the debug summary is not among them.
pub open spec fn live_note_of(event: FlowEvent, action: FlowAction) -> LiveNote {
    LiveNote {
        registers: event is Came && (action is Acquire || action is Fail),
        mark: match action {
            FlowAction::ReadBody => Some(LiveMark::Admitted),
            FlowAction::Complete => Some(LiveMark::Completed),
            FlowAction::Fail => Some(LiveMark::Failed),
            _ => None,
        },
    }
}

/// Decides what is noted of a request among those that are live.
pub fn live_note(event: FlowEvent, action: FlowAction) -> (note: LiveNote)
    ensures
        note == live_note_of(event, action),
{
    let registers = match (event, action) {
        (FlowEvent::Came { .. }, FlowAction::Acquire { .. } | FlowAction::Fail) => true,
        _ => false,
    };
    let mark = match action {
        FlowAction::ReadBody => Some(LiveMark::Admitted),
        FlowAction::Complete => Some(LiveMark::Completed),
        FlowAction::Fail => Some(LiveMark::Failed),
        _ => None,
    };
    LiveNote { registers, mark }
}

// ---------------------------------------------------------------------------
// What holds all the way
// ---------------------------------------------------------------------------

/// Where a request is after some events, from its arrival on.
pub open spec fn after(events: Seq<FlowEvent>) -> FlowStage
    decreases events.len(),
{
    if events.len() == 0 {
        FlowStage::Arrived
    } else {
        flow(after(events.drop_last()), events.last()).0
    }
}

/// What is done after some events.
pub open spec fn done_after(events: Seq<FlowEvent>) -> FlowAction {
    flow(after(events.drop_last()), events.last()).1
}

/// Whether an action answers the client.
pub open spec fn answers(action: FlowAction) -> bool {
    action is AnswerDebugSummary || action is Complete || action is Fail
}

/// Whether an action sends a request on.
pub open spec fn sends(action: FlowAction) -> bool {
    action is ForwardShielded || action is ForwardGeneric
}

/// Whether every event tells the same of what is asked for.
pub open spec fn agree(events: Seq<FlowEvent>, is_models_request: bool) -> bool {
    forall|i: int|
        0 <= i < events.len() ==> match #[trigger] events[i] {
            FlowEvent::Came { is_models_request: told, .. } => told == is_models_request,
            FlowEvent::BodyRead { is_models_request: told, .. } => told == is_models_request,
            _ => true,
        }
}

/// Whether a stage holds the capacity that it needs.
spec fn holds_capacity(stage: FlowStage, is_models_request: bool) -> bool {
    match stage {
        FlowStage::Admitting { kind } => kind is ControlPlane <==> is_models_request,
        FlowStage::ReadingBody { held } => held is ControlPlane <==> is_models_request,
        FlowStage::WaitingForRestart | FlowStage::AcquiringForProfile => !is_models_request,
        FlowStage::Preparing { held }
        | FlowStage::RunningWorkflow { held }
        | FlowStage::Guarding { held, .. }
        | FlowStage::SelectingEndpoint { held, .. }
        | FlowStage::Rendering { held, .. }
        | FlowStage::Forwarding { held, .. } => if is_models_request {
            held is ControlPlane
        } else {
            held is Generation
        },
        _ => true,
    }
}

proof fn capacity_is_kept(events: Seq<FlowEvent>, is_models_request: bool)
    requires
        agree(events, is_models_request),
    ensures
        holds_capacity(after(events), is_models_request),
    decreases events.len(),
{
    if events.len() > 0 {
        let before = events.drop_last();
        assert(agree(before, is_models_request)) by {
            assert forall|i: int| 0 <= i < before.len() implies match #[trigger] before[i] {
                FlowEvent::Came { is_models_request: told, .. } => told == is_models_request,
                FlowEvent::BodyRead { is_models_request: told, .. } => told == is_models_request,
                _ => true,
            } by {
                assert(before[i] == events[i]);
            }
        }
        capacity_is_kept(before, is_models_request);
        assert(events[events.len() - 1] == events.last());
    }
}

/// Whatever happens, a request is sent on only while it holds the capacity that it
/// needs: that of the control plane for a list of models, that of generation for
/// anything else. What lets a request be routed by its body is never enough.
pub proof fn requests_are_sent_with_capacity(events: Seq<FlowEvent>, is_models_request: bool)
    requires
        events.len() > 0,
        agree(events, is_models_request),
        sends(done_after(events)),
    ensures
        after(events) matches FlowStage::Forwarding { held, .. } && held == if is_models_request {
            AdmissionPermitKind::ControlPlane
        } else {
            AdmissionPermitKind::Generation
        },
{
    capacity_is_kept(events, is_models_request);
}

/// A request is answered once: the answer is the last thing that is done, whatever
/// happens afterwards.
pub proof fn requests_are_answered_once(events: Seq<FlowEvent>, later: Seq<FlowEvent>)
    requires
        events.len() > 0,
        answers(done_after(events)),
    ensures
        after(events) is Answered,
        after(events + later) is Answered,
        later.len() > 0 ==> done_after(events + later) is Nothing,
    decreases later.len(),
{
    if later.len() == 0 {
        assert(events + later =~= events);
    } else {
        requests_are_answered_once(events, later.drop_last());
        assert((events + later).drop_last() =~= events + later.drop_last());
    }
}

/// Whether the guard of a stage has let its request through.
spec fn is_cleared(events: Seq<FlowEvent>, plan: FlowPlan) -> bool {
    plan.guarded ==> events.contains(FlowEvent::GuardPassed)
}

proof fn contained_later(events: Seq<FlowEvent>, event: FlowEvent)
    requires
        events.len() > 0,
        events.drop_last().contains(event),
    ensures
        events.contains(event),
{
    let before = events.drop_last();
    let at = choose|at: int| 0 <= at < before.len() && before[at] == event;
    assert(events[at] == event);
}

proof fn clearance_is_kept(events: Seq<FlowEvent>)
    ensures
        match after(events) {
            FlowStage::Guarding { plan, .. } => !plan.workflow_alias,
            FlowStage::SelectingEndpoint { plan, .. } => !plan.workflow_alias && plan.failover
                && is_cleared(events, plan),
            FlowStage::Rendering { plan, .. } => !plan.workflow_alias && plan.failover && is_cleared(
                events,
                plan,
            ) && events.contains(FlowEvent::EndpointSelected),
            FlowStage::Forwarding { plan, .. } => !plan.workflow_alias && is_cleared(events, plan) && (
            plan.failover ==> events.contains(FlowEvent::EndpointSelected)),
            _ => true,
        },
    decreases events.len(),
{
    if events.len() > 0 {
        let before = events.drop_last();
        clearance_is_kept(before);
        if before.contains(FlowEvent::GuardPassed) {
            contained_later(events, FlowEvent::GuardPassed);
        }
        if before.contains(FlowEvent::EndpointSelected) {
            contained_later(events, FlowEvent::EndpointSelected);
        }
        assert(events[events.len() - 1] == events.last());
    }
}

/// A guarded request is sent on only after its guard has let it through, a request
/// with several endpoints only after one was selected, and one that a workflow
/// answers not at all.
pub proof fn requests_are_sent_when_cleared(events: Seq<FlowEvent>)
    requires
        events.len() > 0,
        sends(done_after(events)),
    ensures
        match after(events) {
            FlowStage::Forwarding { plan, .. } => {
                &&& !plan.workflow_alias
                &&& plan.guarded ==> events.contains(FlowEvent::GuardPassed)
                &&& plan.failover ==> events.contains(FlowEvent::EndpointSelected)
                &&& done_after(events) == send_on(plan)
            },
            _ => false,
        },
{
    clearance_is_kept(events);
}

/// A refusal is always told: wherever a request is that was not answered yet, a
/// refusal ends it with an answer.
pub proof fn refusals_are_told(stage: FlowStage)
    requires
        !(stage is Answered),
    ensures
        flow(stage, FlowEvent::Refused) == (FlowStage::Answered, FlowAction::Fail),
{
}

/// The first steps agree with what is decided about admission.
pub proof fn admission_is_followed(
    method: Seq<char>,
    path: Seq<char>,
    has_profile_limits: bool,
    restart_queue_enabled: bool,
    held: AdmissionPermitKind,
)
    ensures
        at_the_door(
            HandlerStep::Admit,
            true,
            crate::forwarding::is_models_request(method, path),
            has_profile_limits,
        ).1 == (FlowAction::Acquire { kind: admission_route(method, path, has_profile_limits) }),
        with_body(
            held,
            crate::forwarding::is_models_request(method, path),
            restart_queue_enabled,
        ).1 == match body_admission(method, path, restart_queue_enabled, held) {
            BodyAdmissionStep::GoOn => FlowAction::Prepare,
            BodyAdmissionStep::WaitForRestart => FlowAction::ReleaseAndWaitForRestart,
            BodyAdmissionStep::AcquireForProfile => FlowAction::AcquireForProfile,
        },
{
}

/// What is known of a request among those that are live: nothing where it is not
/// listed, and else whether it was admitted.
pub open spec fn noted(live: Option<bool>, note: LiveNote) -> Option<bool> {
    let listed = if note.registers {
        Some(false)
    } else {
        live
    };
    match note.mark {
        None => listed,
        Some(LiveMark::Admitted) => if listed is Some {
            Some(true)
        } else {
            None
        },
        Some(_) => None,
    }
}

/// What is known of a request among those that are live, after some events.
pub open spec fn live_after(events: Seq<FlowEvent>) -> Option<bool>
    decreases events.len(),
{
    if events.len() == 0 {
        None
    } else {
        noted(live_after(events.drop_last()), live_note_of(events.last(), done_after(events)))
    }
}

/// Requests in flight are listed, and no others: a request is among those that are
/// live from the time it asks for capacity until it is answered, and counts as
/// admitted from the time it was. Once it is answered it is gone from the list.
pub proof fn requests_in_flight_are_live(events: Seq<FlowEvent>)
    ensures
        live_after(events) == match after(events) {
            FlowStage::Arrived | FlowStage::Answered => None,
            FlowStage::Admitting { .. } => Some(false),
            _ => Some(true),
        },
    decreases events.len(),
{
    if events.len() > 0 {
        requests_in_flight_are_live(events.drop_last());
    }
}

/// A request takes its steps in order: it is admitted, its body is read, it is prepared,
/// guarded where it has a guard, given an endpoint where it has several, and forwarded;
/// a workflow runs in place of the upstream.
pub proof fn requests_take_their_steps(held: AdmissionPermitKind, plan: FlowPlan)
    ensures
        flow(FlowStage::Admitting { kind: held }, FlowEvent::Acquired).1 is ReadBody,
        flow(FlowStage::WaitingForRestart, FlowEvent::RestartOver).1 is AcquireForProfile,
        flow(FlowStage::AcquiringForProfile, FlowEvent::Acquired) == (
            FlowStage::Preparing { held: AdmissionPermitKind::Generation },
            FlowAction::Prepare,
        ),
        ({
            let prepared = flow(FlowStage::Preparing { held }, FlowEvent::Prepared { plan }).1;
            &&& prepared is RunWorkflow <==> plan.workflow_alias
            &&& prepared is AskGuard <==> plan.guarded && !plan.workflow_alias
            &&& prepared is SelectEndpoint <==> plan.failover && !plan.guarded
                && !plan.workflow_alias
            &&& prepared is ForwardShielded <==> plan.intercepted && !plan.failover && !plan.guarded
                && !plan.workflow_alias
            &&& prepared is ForwardGeneric <==> !plan.intercepted && !plan.failover && !plan.guarded
                && !plan.workflow_alias
        }),
        ({
            let passed = flow(FlowStage::Guarding { held, plan }, FlowEvent::GuardPassed).1;
            &&& passed is SelectEndpoint <==> plan.failover
            &&& passed is ForwardShielded <==> plan.intercepted && !plan.failover
            &&& passed is ForwardGeneric <==> !plan.intercepted && !plan.failover
        }),
        flow(FlowStage::SelectingEndpoint { held, plan }, FlowEvent::EndpointSelected).1 is Render,
        flow(FlowStage::Rendering { held, plan }, FlowEvent::Rendered).1 is ForwardShielded
            <==> plan.intercepted,
        flow(FlowStage::Forwarding { held, plan }, FlowEvent::Responded) == (
            FlowStage::Answered,
            FlowAction::Complete,
        ),
        flow(FlowStage::RunningWorkflow { held }, FlowEvent::WorkflowAnswered).1 is Complete,
{
}

/// At the door the summary is answered and a bad path is refused; every other request
/// asks for the permit of its kind. Once its body is read, a request that waits for a
/// restart gives its permit back, and one without a permit to generate asks for it.
pub proof fn permits_are_asked_by_kind(
    path: crate::path::OpenAiPathError,
    is_models_request: bool,
    has_profile_limits: bool,
    held: AdmissionPermitKind,
    restart_queue_enabled: bool,
)
    ensures
        at_the_door(HandlerStep::DebugSummary, true, is_models_request, has_profile_limits).1
            is AnswerDebugSummary,
        at_the_door(HandlerStep::RefusePath(path), true, is_models_request, has_profile_limits).1
            is Fail,
        at_the_door(HandlerStep::Admit, false, is_models_request, has_profile_limits).1 is Fail,
        at_the_door(HandlerStep::Admit, true, true, has_profile_limits).1 == (FlowAction::Acquire {
            kind: AdmissionPermitKind::ControlPlane,
        }),
        at_the_door(HandlerStep::Admit, true, false, true).1 == (FlowAction::Acquire {
            kind: AdmissionPermitKind::BodyRouting,
        }),
        at_the_door(HandlerStep::Admit, true, false, false).1 == (FlowAction::Acquire {
            kind: AdmissionPermitKind::Generation,
        }),
        with_body(held, true, restart_queue_enabled).1 is Prepare,
        with_body(held, false, true).1 is ReleaseAndWaitForRestart,
        with_body(held, false, false).1 is Prepare <==> held is Generation,
        with_body(held, false, false).1 is AcquireForProfile <==> !(held is Generation),
{
}

/// A request is listed as live from when it came, as admitted from when its body is
/// read, and no longer when it is answered.
pub proof fn live_requests_are_marked(event: FlowEvent, kind: AdmissionPermitKind)
    ensures
        live_note_of(event, FlowAction::ReadBody).mark == Some(LiveMark::Admitted),
        live_note_of(event, FlowAction::Complete).mark == Some(LiveMark::Completed),
        live_note_of(event, FlowAction::Fail).mark == Some(LiveMark::Failed),
        live_note_of(event, FlowAction::Prepare).mark is None,
        live_note_of(event, FlowAction::Acquire { kind }).registers <==> event is Came,
        live_note_of(event, FlowAction::AnswerDebugSummary).registers == false,
{
}

/// A request is listed from its registration to its end, and is under way once admitted.
pub proof fn requests_are_listed_while_they_last(live: Option<bool>, under_way: bool)
    ensures
        noted(live, LiveNote { registers: true, mark: None }) == Some(false),
        noted(live, LiveNote { registers: false, mark: None }) == live,
        noted(Some(under_way), LiveNote { registers: false, mark: Some(LiveMark::Admitted) })
            == Some(true),
        noted(None, LiveNote { registers: false, mark: Some(LiveMark::Admitted) }) is None,
{
}

/// Behind the guard a request is sent on, and where there is more than one endpoint one
/// is selected first.
pub proof fn endpoints_are_selected_before_sending(held: AdmissionPermitKind, plan: FlowPlan)
    ensures
        plan.failover ==> after_guard(held, plan).1 is SelectEndpoint,
        !plan.failover ==> after_guard(held, plan).1 == send_on(plan),
        after_guard(held, plan).0 matches FlowStage::Forwarding { held: permit, plan: planned }
            ==> permit == held && planned == plan,
        after_guard(held, plan).0 matches FlowStage::SelectingEndpoint {
            held: permit,
            plan: planned,
        } ==> permit == held && planned == plan,
{
}

} // verus!
