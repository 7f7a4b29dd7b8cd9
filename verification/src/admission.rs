//! Admission of requests: in-flight limits, the queue in front of them, and
//! what a refused request is told.

use crate::clock::{min_u64, since, smaller};
use crate::metadata::{Bindings, Metadata};
use crate::records::RequestStatus;
use crate::text::{decimal, decimal_text, joined, same_text};
use vstd::prelude::*;

verus! {

/// Seconds after which a refused request may be tried again.
pub const ADMISSION_RETRY_AFTER_SECS: u32 = 1;

/// Longest time, in milliseconds, after which a waiting request looks again.
pub const IN_FLIGHT_CAPACITY_RECHECK_INTERVAL_MS: u64 = 100;

/// How many requests are running and how many are waiting.
#[derive(Clone, Copy, Debug, PartialEq, Eq, Structural)]
pub struct AdmissionCounts {
    pub active: usize,
    pub queued: usize,
}

/// A limiter of running and waiting requests.
pub struct InFlightLimiter {
    counts: AdmissionCounts,
}

impl View for InFlightLimiter {
    type V = AdmissionCounts;

    closed spec fn view(&self) -> AdmissionCounts {
        self.counts
    }
}

/// One less, and never below zero.
pub open spec fn one_less(count: usize) -> usize {
    if count == 0 {
        0
    } else {
        (count - 1) as usize
    }
}

/// The counts after a try to start a request.
pub open spec fn after_try_acquire(counts: AdmissionCounts, max: usize) -> AdmissionCounts {
    if counts.active < max {
        AdmissionCounts { active: (counts.active + 1) as usize, ..counts }
    } else {
        counts
    }
}

/// The counts after a try to join the queue.
pub open spec fn after_try_enqueue(counts: AdmissionCounts, max: usize) -> AdmissionCounts {
    if counts.queued < max {
        AdmissionCounts { queued: (counts.queued + 1) as usize, ..counts }
    } else {
        counts
    }
}

/// The counts after a request has ended.
pub open spec fn after_release(counts: AdmissionCounts) -> AdmissionCounts {
    AdmissionCounts { active: one_less(counts.active), ..counts }
}

/// The counts after a request has left the queue.
pub open spec fn after_leave(counts: AdmissionCounts) -> AdmissionCounts {
    AdmissionCounts { queued: one_less(counts.queued), ..counts }
}

impl InFlightLimiter {
    /// A limiter with nothing running and nothing waiting.
    pub fn new() -> (limiter: InFlightLimiter)
        ensures
            limiter@ == (AdmissionCounts { active: 0, queued: 0 }),
    {
        InFlightLimiter { counts: AdmissionCounts { active: 0, queued: 0 } }
    }

    /// Starts a request if fewer than `max_in_flight_requests` are running.
    pub fn try_acquire(&mut self, max_in_flight_requests: usize) -> (acquired: bool)
        ensures
            acquired == (old(self)@.active < max_in_flight_requests),
            final(self)@ == after_try_acquire(old(self)@, max_in_flight_requests),
    {
        if self.counts.active >= max_in_flight_requests {
            return false;
        }
        self.counts.active = self.counts.active + 1;
        true
    }

    /// Joins the queue if fewer than `max_queued_requests` are waiting.
    pub fn try_enqueue(&mut self, max_queued_requests: usize) -> (queued: bool)
        ensures
            queued == (old(self)@.queued < max_queued_requests),
            final(self)@ == after_try_enqueue(old(self)@, max_queued_requests),
    {
        if self.counts.queued >= max_queued_requests {
            return false;
        }
        self.counts.queued = self.counts.queued + 1;
        true
    }

    /// Ends a running request.
    pub fn release(&mut self)
        ensures
            final(self)@ == after_release(old(self)@),
    {
        self.counts.active = self.counts.active.saturating_sub(1);
    }

    /// Leaves the queue.
    pub fn leave_queue(&mut self)
        ensures
            final(self)@ == after_leave(old(self)@),
    {
        self.counts.queued = self.counts.queued.saturating_sub(1);
    }

    /// The counts as they stand.
    pub fn snapshot_counts(&self) -> (counts: AdmissionCounts)
        ensures
            counts == self@,
    {
        admission_counts(self)
    }
}

/// The counts of a limiter.
pub fn admission_counts(limiter: &InFlightLimiter) -> (counts: AdmissionCounts)
    ensures
        counts == limiter@,
{
    limiter.counts
}

/// A limiter that starts within its limits stays within them: no step takes the
/// number of running requests above `max_active`, nor that of waiting requests
/// above `max_queued`.
pub proof fn limits_are_kept(counts: AdmissionCounts, max_active: usize, max_queued: usize)
    requires
        counts.active <= max_active,
        counts.queued <= max_queued,
    ensures
        after_try_acquire(counts, max_active).active <= max_active,
        after_try_acquire(counts, max_active).queued <= max_queued,
        after_try_enqueue(counts, max_queued).active <= max_active,
        after_try_enqueue(counts, max_queued).queued <= max_queued,
        after_release(counts).active <= max_active,
        after_release(counts).queued <= max_queued,
        after_leave(counts).active <= max_active,
        after_leave(counts).queued <= max_queued,
{
}

/// The end of a request undoes its start.
pub proof fn release_undoes_acquire(counts: AdmissionCounts, max: usize)
    requires
        counts.active < max,
    ensures
        after_release(after_try_acquire(counts, max)) == counts,
{
}

/// Leaving the queue undoes joining it.
pub proof fn leaving_undoes_queueing(counts: AdmissionCounts, max: usize)
    requires
        counts.queued < max,
    ensures
        after_leave(after_try_enqueue(counts, max)) == counts,
{
}

// ---------------------------------------------------------------------------
// Refusals
// ---------------------------------------------------------------------------

/// Why a waiting request was given up.
#[derive(Clone, Copy, Debug, PartialEq, Eq, Structural)]
pub enum QueueCancellationReason {
    DownstreamDisconnected,
    ServerShutdown,
}

impl QueueCancellationReason {
    /// The admission outcome that is recorded.
    pub open spec fn outcome_text(self) -> Seq<char> {
        match self {
            QueueCancellationReason::DownstreamDisconnected => "queue_cancelled"@,
            QueueCancellationReason::ServerShutdown => "queue_cancelled_shutdown"@,
        }
    }

    /// The abort reason that is recorded.
    pub open spec fn abort_text(self) -> Seq<char> {
        match self {
            QueueCancellationReason::DownstreamDisconnected => "downstream_disconnected_while_queued"@,
            QueueCancellationReason::ServerShutdown => "server_shutdown_while_queued"@,
        }
    }

    /// The admission outcome that is recorded.
    pub fn admission_outcome(self) -> (outcome: &'static str)
        ensures
            outcome@ == self.outcome_text(),
    {
        match self {
            QueueCancellationReason::DownstreamDisconnected => "queue_cancelled",
            QueueCancellationReason::ServerShutdown => "queue_cancelled_shutdown",
        }
    }

    /// The abort reason that is recorded.
    pub fn abort_reason(self) -> (reason: &'static str)
        ensures
            reason@ == self.abort_text(),
    {
        match self {
            QueueCancellationReason::DownstreamDisconnected => "downstream_disconnected_while_queued",
            QueueCancellationReason::ServerShutdown => "server_shutdown_while_queued",
        }
    }
}

/// A waiting request that was given up.
#[derive(Clone, Copy, Debug, PartialEq, Eq, Structural)]
pub struct QueuedAdmissionCancellation {
    pub reason: QueueCancellationReason,
    pub queue_wait_ms: u64,
    pub generation_queue_timeout_ms: u64,
}

/// What is recorded of a request that waited in the queue.
pub open spec fn cancelled_bindings(cancelled: QueuedAdmissionCancellation) -> Bindings {
    Bindings::empty().insert("admission_outcome"@, cancelled.reason.outcome_text()).insert(
        "queue_wait_ms"@,
        decimal(cancelled.queue_wait_ms as nat),
    ).insert(
        "generation_queue_timeout_ms"@,
        decimal(cancelled.generation_queue_timeout_ms as nat),
    )
}

/// Records a request that was given up in the queue.
pub fn cancelled_admission_metadata(cancelled: QueuedAdmissionCancellation) -> (metadata: Metadata)
    ensures
        metadata@ == cancelled_bindings(cancelled),
{
    let mut metadata = Metadata::new();
    metadata.set("admission_outcome", cancelled.reason.admission_outcome());
    metadata.set_number("queue_wait_ms", cancelled.queue_wait_ms);
    metadata.set_number("generation_queue_timeout_ms", cancelled.generation_queue_timeout_ms);
    metadata
}

/// A listener does not serve the upstream profile of a model.
pub struct ListenerUpstreamDenied {
    pub listener_name: String,
    pub listener_port: u16,
    pub upstream_profile: String,
    pub model_id: String,
}

/// The message of a listener's refusal.
pub open spec fn denied_message(denied: ListenerUpstreamDenied) -> Seq<char> {
    "listener "@ + denied.listener_name@ + " on port "@ + decimal(denied.listener_port as nat)
        + " does not allow upstream profile "@ + denied.upstream_profile@ + " for model "@
        + denied.model_id@
}

impl ListenerUpstreamDenied {
    /// The message given to the client.
    pub fn message(&self) -> (message: String)
        ensures
            message@ == denied_message(*self),
    {
        let mut message = "listener ".to_owned();
        message.append(self.listener_name.as_str());
        message.append(" on port ");
        message.append(decimal_text(self.listener_port as u64).as_str());
        message.append(" does not allow upstream profile ");
        message.append(self.upstream_profile.as_str());
        message.append(" for model ");
        message.append(self.model_id.as_str());
        message
    }
}

impl Clone for ListenerUpstreamDenied {
    fn clone(&self) -> (copy: ListenerUpstreamDenied)
        ensures
            copy == *self,
    {
        ListenerUpstreamDenied {
            listener_name: self.listener_name.clone(),
            listener_port: self.listener_port,
            upstream_profile: self.upstream_profile.clone(),
            model_id: self.model_id.clone(),
        }
    }
}

/// Why a request is not admitted.
pub enum AdmissionFailure {
    ConfigSnapshot(String),
    GenerationQueueFull {
        max_queued_generation_requests: usize,
        status: u16,
        retry_after_secs: Option<u32>,
    },
    GenerationQueueTimeout { generation_queue_timeout_ms: u64, queue_wait_ms: u64 },
    ControlPlaneLimitExceeded { max_control_plane_in_flight_requests: usize },
    ShuttingDown { queued: Option<QueuedAdmissionCancellation> },
    ListenerUpstreamDenied(ListenerUpstreamDenied),
}

impl Clone for AdmissionFailure {
    fn clone(&self) -> (copy: AdmissionFailure)
        ensures
            copy == *self,
    {
        match self {
            AdmissionFailure::ConfigSnapshot(reason) => AdmissionFailure::ConfigSnapshot(
                reason.clone(),
            ),
            AdmissionFailure::GenerationQueueFull {
                max_queued_generation_requests,
                status,
                retry_after_secs,
            } => AdmissionFailure::GenerationQueueFull {
                max_queued_generation_requests: *max_queued_generation_requests,
                status: *status,
                retry_after_secs: *retry_after_secs,
            },
            AdmissionFailure::GenerationQueueTimeout {
                generation_queue_timeout_ms,
                queue_wait_ms,
            } => AdmissionFailure::GenerationQueueTimeout {
                generation_queue_timeout_ms: *generation_queue_timeout_ms,
                queue_wait_ms: *queue_wait_ms,
            },
            AdmissionFailure::ControlPlaneLimitExceeded {
                max_control_plane_in_flight_requests,
            } => AdmissionFailure::ControlPlaneLimitExceeded {
                max_control_plane_in_flight_requests: *max_control_plane_in_flight_requests,
            },
            AdmissionFailure::ShuttingDown { queued } => AdmissionFailure::ShuttingDown {
                queued: *queued,
            },
            AdmissionFailure::ListenerUpstreamDenied(
                denied,
            ) => AdmissionFailure::ListenerUpstreamDenied(denied.clone()),
        }
    }
}

/// Whether a number can be an HTTP status.
pub open spec fn is_http_status(status: u16) -> bool {
    100 <= status < 1000
}

impl AdmissionFailure {
    /// The HTTP status of a refusal.
    pub open spec fn status_code(self) -> u16 {
        match self {
            AdmissionFailure::ConfigSnapshot(_) => 500,
            AdmissionFailure::ListenerUpstreamDenied(_) => 400,
            AdmissionFailure::GenerationQueueFull { status, .. } => if is_http_status(status) {
                status
            } else {
                503
            },
            _ => 503,
        }
    }

    /// The error type of a refusal.
    pub open spec fn type_text(self) -> Seq<char> {
        match self {
            AdmissionFailure::ConfigSnapshot(_) => "config_snapshot_failed"@,
            AdmissionFailure::GenerationQueueFull { .. } => "proxy_generation_queue_full"@,
            AdmissionFailure::GenerationQueueTimeout { .. } => "proxy_generation_queue_timeout"@,
            AdmissionFailure::ListenerUpstreamDenied(_) => "listener_upstream_not_allowed"@,
            AdmissionFailure::ControlPlaneLimitExceeded {
                ..
            } => "proxy_control_plane_in_flight_limit_exceeded"@,
            AdmissionFailure::ShuttingDown { queued } => if queued is Some {
                "proxy_generation_queue_cancelled"@
            } else {
                "proxy_shutting_down"@
            },
        }
    }

    /// The abort reason of a refusal.
    pub open spec fn abort_text(self) -> Option<Seq<char>> {
        match self {
            AdmissionFailure::ShuttingDown { queued: Some(queued) } => Some(
                queued.reason.abort_text(),
            ),
            _ => None,
        }
    }

    /// The request status of a refusal.
    pub open spec fn outcome(self) -> RequestStatus {
        match self {
            AdmissionFailure::ShuttingDown { queued: Some(_) } => RequestStatus::Aborted,
            _ => RequestStatus::Failed,
        }
    }

    /// Seconds after which the request may be tried again.
    pub open spec fn retry_seconds(self) -> Option<u32> {
        match self {
            AdmissionFailure::ConfigSnapshot(_) => None,
            AdmissionFailure::ListenerUpstreamDenied(_) => None,
            AdmissionFailure::GenerationQueueFull {
                retry_after_secs: Some(secs),
                ..
            } => Some(secs),
            _ => Some(ADMISSION_RETRY_AFTER_SECS),
        }
    }

    /// What is recorded of a refusal.
    pub open spec fn bindings(self) -> Bindings {
        match self {
            AdmissionFailure::GenerationQueueFull {
                max_queued_generation_requests,
                ..
            } => Bindings::empty().insert("admission_outcome"@, "queue_full_rejected"@).insert(
                "queue_wait_ms"@,
                "0"@,
            ).insert(
                "max_queued_generation_requests"@,
                decimal(max_queued_generation_requests as nat),
            ),
            AdmissionFailure::GenerationQueueTimeout {
                generation_queue_timeout_ms,
                queue_wait_ms,
            } => Bindings::empty().insert("admission_outcome"@, "queue_timeout"@).insert(
                "queue_wait_ms"@,
                decimal(queue_wait_ms as nat),
            ).insert(
                "generation_queue_timeout_ms"@,
                decimal(generation_queue_timeout_ms as nat),
            ),
            AdmissionFailure::ShuttingDown { queued: Some(queued) } => cancelled_bindings(queued),
            AdmissionFailure::ShuttingDown { queued: None } => Bindings::empty().insert(
                "admission_outcome"@,
                "shutdown"@,
            ),
            _ => Bindings::empty(),
        }
    }

    /// The message of a refusal.
    pub open spec fn message_text(self) -> Seq<char> {
        match self {
            AdmissionFailure::ConfigSnapshot(reason) => "failed to read proxy config snapshot: "@
                + reason@,
            AdmissionFailure::GenerationQueueFull {
                max_queued_generation_requests,
                ..
            } => "proxy generation request queue is full: max_queued_generation_requests="@
                + decimal(max_queued_generation_requests as nat),
            AdmissionFailure::GenerationQueueTimeout {
                generation_queue_timeout_ms,
                ..
            } => "proxy generation request queue wait timed out: generation_queue_timeout_ms="@
                + decimal(generation_queue_timeout_ms as nat),
            AdmissionFailure::ControlPlaneLimitExceeded {
                max_control_plane_in_flight_requests,
            } => "proxy control-plane request limit exceeded: max_control_plane_in_flight_requests="@
                + decimal(max_control_plane_in_flight_requests as nat),
            AdmissionFailure::ShuttingDown { .. } => "proxy is shutting down"@,
            AdmissionFailure::ListenerUpstreamDenied(denied) => denied_message(denied),
        }
    }

    /// The HTTP status given to the client.
    pub fn status(&self) -> (status: u16)
        ensures
            status == self.status_code(),
    {
        match self {
            AdmissionFailure::ConfigSnapshot(_) => 500,
            AdmissionFailure::ListenerUpstreamDenied(_) => 400,
            AdmissionFailure::GenerationQueueFull { status, .. } => {
                if *status >= 100 && *status < 1000 {
                    *status
                } else {
                    503
                }
            },
            _ => 503,
        }
    }

    /// The error type given to the client.
    pub fn error_type(&self) -> (error_type: &'static str)
        ensures
            error_type@ == self.type_text(),
    {
        match self {
            AdmissionFailure::ConfigSnapshot(_) => "config_snapshot_failed",
            AdmissionFailure::GenerationQueueFull { .. } => "proxy_generation_queue_full",
            AdmissionFailure::GenerationQueueTimeout { .. } => "proxy_generation_queue_timeout",
            AdmissionFailure::ListenerUpstreamDenied(_) => "listener_upstream_not_allowed",
            AdmissionFailure::ControlPlaneLimitExceeded {
                ..
            } => "proxy_control_plane_in_flight_limit_exceeded",
            AdmissionFailure::ShuttingDown {
                queued: Some(_),
            } => "proxy_generation_queue_cancelled",
            AdmissionFailure::ShuttingDown { queued: None } => "proxy_shutting_down",
        }
    }

    /// The status that is recorded.
    pub fn request_status(&self) -> (status: RequestStatus)
        ensures
            status == self.outcome(),
    {
        match self {
            AdmissionFailure::ShuttingDown { queued: Some(_) } => RequestStatus::Aborted,
            _ => RequestStatus::Failed,
        }
    }

    /// The abort reason that is recorded.
    pub fn abort_reason(&self) -> (reason: Option<&'static str>)
        ensures
            crate::text::opt_str_chars(reason) == self.abort_text(),
    {
        match self {
            AdmissionFailure::ShuttingDown { queued: Some(queued) } => Some(
                queued.reason.abort_reason(),
            ),
            _ => None,
        }
    }

    /// The value of the `Retry-After` field.
    pub fn retry_after(&self) -> (seconds: Option<String>)
        ensures
            crate::text::opt_chars(seconds) == match self.retry_seconds() {
                Some(secs) => Some(decimal(secs as nat)),
                None => None,
            },
    {
        match self {
            AdmissionFailure::ConfigSnapshot(_) => None,
            AdmissionFailure::ListenerUpstreamDenied(_) => None,
            AdmissionFailure::GenerationQueueFull { retry_after_secs: Some(secs), .. } => Some(
                decimal_text(*secs as u64),
            ),
            _ => Some(decimal_text(ADMISSION_RETRY_AFTER_SECS as u64)),
        }
    }

    /// What is recorded of the refusal.
    pub fn request_metadata(&self) -> (metadata: Metadata)
        ensures
            metadata@ == self.bindings(),
    {
        let mut metadata = Metadata::new();
        match self {
            AdmissionFailure::GenerationQueueFull { max_queued_generation_requests, .. } => {
                metadata.set("admission_outcome", "queue_full_rejected");
                metadata.set("queue_wait_ms", "0");
                metadata.set_number(
                    "max_queued_generation_requests",
                    *max_queued_generation_requests as u64,
                );
            },
            AdmissionFailure::GenerationQueueTimeout {
                generation_queue_timeout_ms,
                queue_wait_ms,
            } => {
                metadata.set("admission_outcome", "queue_timeout");
                metadata.set_number("queue_wait_ms", *queue_wait_ms);
                metadata.set_number("generation_queue_timeout_ms", *generation_queue_timeout_ms);
            },
            AdmissionFailure::ShuttingDown { queued: Some(queued) } => {
                return cancelled_admission_metadata(*queued);
            },
            AdmissionFailure::ShuttingDown { queued: None } => {
                metadata.set("admission_outcome", "shutdown");
            },
            AdmissionFailure::ConfigSnapshot(_) => {},
            AdmissionFailure::ListenerUpstreamDenied(_) => {},
            AdmissionFailure::ControlPlaneLimitExceeded { .. } => {},
        }
        metadata
    }

    /// The message given to the client.
    pub fn message(&self) -> (message: String)
        ensures
            message@ == self.message_text(),
    {
        match self {
            AdmissionFailure::ConfigSnapshot(reason) => {
                let mut message = "failed to read proxy config snapshot: ".to_owned();
                message.append(reason.as_str());
                message
            },
            AdmissionFailure::GenerationQueueFull { max_queued_generation_requests, .. } => {
                let mut message =
                    "proxy generation request queue is full: max_queued_generation_requests=".to_owned();
                message.append(decimal_text(*max_queued_generation_requests as u64).as_str());
                message
            },
            AdmissionFailure::GenerationQueueTimeout { generation_queue_timeout_ms, .. } => {
                let mut message =
                    "proxy generation request queue wait timed out: generation_queue_timeout_ms=".to_owned();
                message.append(decimal_text(*generation_queue_timeout_ms).as_str());
                message
            },
            AdmissionFailure::ControlPlaneLimitExceeded {
                max_control_plane_in_flight_requests,
            } => {
                let mut message =
                    "proxy control-plane request limit exceeded: max_control_plane_in_flight_requests=".to_owned();
                message.append(decimal_text(*max_control_plane_in_flight_requests as u64).as_str());
                message
            },
            AdmissionFailure::ShuttingDown { .. } => "proxy is shutting down".to_owned(),
            AdmissionFailure::ListenerUpstreamDenied(denied) => denied.message(),
        }
    }
}

/// A refused request is told when to come back exactly where waiting can help:
/// never after a bad configuration or a listener's refusal.
pub proof fn retry_advice_is_given_for_capacity_only(failure: AdmissionFailure)
    ensures
        failure.retry_seconds() is None <==> (failure is ConfigSnapshot
            || failure is ListenerUpstreamDenied),
{
}

// ---------------------------------------------------------------------------
// Getting in
// ---------------------------------------------------------------------------

/// The admission settings that hold for one request.
#[derive(Clone, Copy, Debug, PartialEq, Eq, Structural)]
pub struct AdmissionLimits {
    pub max_in_flight_requests: usize,
    pub max_queued_generation_requests: usize,
    pub generation_queue_full_status: u16,
    pub generation_queue_retry_after_secs: Option<u32>,
}

/// What becomes of a request that asks to be admitted.
pub enum AdmissionStep {
    /// It runs.
    Acquired,
    /// It waits in the queue.
    Queued,
    /// It is refused.
    Refused(AdmissionFailure),
}

/// What becomes of a request that asks to be admitted, and the counts after it.
pub open spec fn admission_of(
    counts: AdmissionCounts,
    shutting_down: bool,
    limits: Result<AdmissionLimits, AdmissionFailure>,
) -> (AdmissionStep, AdmissionCounts) {
    match limits {
        Err(AdmissionFailure::ConfigSnapshot(reason)) => (
            AdmissionStep::Refused(AdmissionFailure::ConfigSnapshot(reason)),
            counts,
        ),
        Err(failure) => if shutting_down {
            (AdmissionStep::Refused(AdmissionFailure::ShuttingDown { queued: None }), counts)
        } else {
            (AdmissionStep::Refused(failure), counts)
        },
        Ok(limits) => if shutting_down {
            (AdmissionStep::Refused(AdmissionFailure::ShuttingDown { queued: None }), counts)
        } else if counts.active < limits.max_in_flight_requests {
            (AdmissionStep::Acquired, after_try_acquire(counts, limits.max_in_flight_requests))
        } else if counts.queued < limits.max_queued_generation_requests {
            (
                AdmissionStep::Queued,
                after_try_enqueue(counts, limits.max_queued_generation_requests),
            )
        } else {
            (
                AdmissionStep::Refused(
                    AdmissionFailure::GenerationQueueFull {
                        max_queued_generation_requests: limits.max_queued_generation_requests,
                        status: limits.generation_queue_full_status,
                        retry_after_secs: limits.generation_queue_retry_after_secs,
                    },
                ),
                counts,
            )
        },
    }
}

/// Admits a request, queues it, or refuses it. `limits` is what the current
/// configuration says of the request's profile, or why it says nothing: a
/// configuration that cannot be read comes before a shutdown, a shutdown before
/// a listener's refusal.
pub fn acquire_generation_permit_with_limiter(
    limiter: &mut InFlightLimiter,
    shutting_down: bool,
    limits: Result<AdmissionLimits, AdmissionFailure>,
) -> (step: AdmissionStep)
    ensures
        (step, final(limiter)@) == admission_of(old(limiter)@, shutting_down, limits),
{
    match limits {
        Err(AdmissionFailure::ConfigSnapshot(reason)) => AdmissionStep::Refused(
            AdmissionFailure::ConfigSnapshot(reason),
        ),
        Err(failure) => {
            if shutting_down {
                AdmissionStep::Refused(AdmissionFailure::ShuttingDown { queued: None })
            } else {
                AdmissionStep::Refused(failure)
            }
        },
        Ok(limits) => {
            if shutting_down {
                return AdmissionStep::Refused(AdmissionFailure::ShuttingDown { queued: None });
            }
            if limiter.try_acquire(limits.max_in_flight_requests) {
                return AdmissionStep::Acquired;
            }
            if limiter.try_enqueue(limits.max_queued_generation_requests) {
                return AdmissionStep::Queued;
            }
            AdmissionStep::Refused(
                AdmissionFailure::GenerationQueueFull {
                    max_queued_generation_requests: limits.max_queued_generation_requests,
                    status: limits.generation_queue_full_status,
                    retry_after_secs: limits.generation_queue_retry_after_secs,
                },
            )
        },
    }
}

/// What a waiting request does next.
pub enum QueueStep {
    /// It runs, after having waited this long.
    Acquired { queue_wait_ms: u64 },
    /// It is refused.
    Refused(AdmissionFailure),
    /// It looks again after this long, or earlier when told.
    Wait { max_wait_ms: u64 },
}

/// A request in the queue.
#[derive(Clone, Copy, Debug, PartialEq, Eq, Structural)]
pub struct QueuedRequest {
    pub queued_at_ms: u64,
    pub timeout_ms: u64,
}

impl QueuedRequest {
    /// How long the request has waited.
    pub open spec fn waited(self, now_ms: u64) -> u64 {
        since(now_ms, self.queued_at_ms)
    }

    /// How long the request may still wait.
    pub open spec fn patience(self, now_ms: u64) -> u64 {
        if self.waited(now_ms) >= self.timeout_ms {
            0
        } else {
            (self.timeout_ms - self.waited(now_ms)) as u64
        }
    }
}

/// What a waiting request does next, and the counts after it.
pub open spec fn queue_step(
    counts: AdmissionCounts,
    request: QueuedRequest,
    shutting_down: bool,
    max_in_flight: Result<usize, AdmissionFailure>,
    now_ms: u64,
) -> (QueueStep, AdmissionCounts) {
    if shutting_down {
        (
            QueueStep::Refused(
                AdmissionFailure::ShuttingDown {
                    queued: Some(
                        QueuedAdmissionCancellation {
                            reason: QueueCancellationReason::ServerShutdown,
                            queue_wait_ms: request.waited(now_ms),
                            generation_queue_timeout_ms: request.timeout_ms,
                        },
                    ),
                },
            ),
            counts,
        )
    } else {
        match max_in_flight {
            Err(failure) => (QueueStep::Refused(failure), counts),
            Ok(max) => if counts.active < max {
                (
                    QueueStep::Acquired { queue_wait_ms: request.waited(now_ms) },
                    after_try_acquire(counts, max),
                )
            } else if request.patience(now_ms) == 0 {
                (
                    QueueStep::Refused(
                        AdmissionFailure::GenerationQueueTimeout {
                            generation_queue_timeout_ms: request.timeout_ms,
                            queue_wait_ms: request.waited(now_ms),
                        },
                    ),
                    counts,
                )
            } else {
                (
                    QueueStep::Wait {
                        max_wait_ms: smaller(
                            request.patience(now_ms),
                            IN_FLIGHT_CAPACITY_RECHECK_INTERVAL_MS,
                        ),
                    },
                    counts,
                )
            },
        }
    }
}

/// Decides what a waiting request does next. `max_in_flight` is what the current
/// configuration allows the request's profile, or why the request is refused.
pub fn wait_for_generation_capacity(
    limiter: &mut InFlightLimiter,
    request: QueuedRequest,
    shutting_down: bool,
    max_in_flight: Result<usize, AdmissionFailure>,
    now_ms: u64,
) -> (step: QueueStep)
    ensures
        (step, final(limiter)@) == queue_step(
            old(limiter)@,
            request,
            shutting_down,
            max_in_flight,
            now_ms,
        ),
{
    let waited: u64 = now_ms.saturating_sub(request.queued_at_ms);
    if shutting_down {
        return QueueStep::Refused(
            AdmissionFailure::ShuttingDown {
                queued: Some(
                    QueuedAdmissionCancellation {
                        reason: QueueCancellationReason::ServerShutdown,
                        queue_wait_ms: waited,
                        generation_queue_timeout_ms: request.timeout_ms,
                    },
                ),
            },
        );
    }
    let max: usize = match max_in_flight {
        Ok(max) => max,
        Err(failure) => {
            return QueueStep::Refused(failure);
        },
    };
    if limiter.try_acquire(max) {
        return QueueStep::Acquired { queue_wait_ms: waited };
    }
    let patience: u64 = request.timeout_ms.saturating_sub(waited);
    if patience == 0 {
        return QueueStep::Refused(
            AdmissionFailure::GenerationQueueTimeout {
                generation_queue_timeout_ms: request.timeout_ms,
                queue_wait_ms: waited,
            },
        );
    }
    QueueStep::Wait { max_wait_ms: min_u64(patience, IN_FLIGHT_CAPACITY_RECHECK_INTERVAL_MS) }
}

/// A waiting request never waits past its time: while it is told to wait, it is
/// told to look again no later than its time is up, and once its time is up it
/// is no longer told to wait.
pub proof fn waiting_ends_in_time(
    counts: AdmissionCounts,
    request: QueuedRequest,
    shutting_down: bool,
    max_in_flight: Result<usize, AdmissionFailure>,
    now_ms: u64,
)
    requires
        request.queued_at_ms <= now_ms,
    ensures
        match queue_step(counts, request, shutting_down, max_in_flight, now_ms).0 {
            QueueStep::Wait { max_wait_ms } => 0 < max_wait_ms && now_ms + max_wait_ms
                <= request.queued_at_ms + request.timeout_ms,
            _ => true,
        },
        now_ms - request.queued_at_ms >= request.timeout_ms ==> !(queue_step(
            counts,
            request,
            shutting_down,
            max_in_flight,
            now_ms,
        ).0 is Wait),
{
}

/// Starts a control-plane request, or refuses it.
pub fn try_acquire_control_plane_permit(
    limiter: &mut InFlightLimiter,
    max_control_plane_in_flight_requests: usize,
) -> (acquired: Result<(), AdmissionFailure>)
    ensures
        final(limiter)@ == after_try_acquire(old(limiter)@, max_control_plane_in_flight_requests),
        match acquired {
            Ok(_) => old(limiter)@.active < max_control_plane_in_flight_requests,
            Err(failure) => old(limiter)@.active >= max_control_plane_in_flight_requests && failure
                == (AdmissionFailure::ControlPlaneLimitExceeded {
                max_control_plane_in_flight_requests,
            }),
        },
{
    if limiter.try_acquire(max_control_plane_in_flight_requests) {
        Ok(())
    } else {
        Err(AdmissionFailure::ControlPlaneLimitExceeded { max_control_plane_in_flight_requests })
    }
}

/// What a request does when its upstream may be restarting.
#[derive(Clone, Copy, Debug, PartialEq, Eq, Structural)]
pub enum RestartQueueStep {
    /// No restart is going on.
    NotNeeded,
    /// The request waits for the restart to end.
    Queued,
    /// Too many requests wait already.
    Full,
}

/// Joins the queue for the end of a restart, and counts it. The depth is kept
/// modulo the range of 64 bits.
pub fn acquire_restart_queue_permit(
    limiter: &mut InFlightLimiter,
    depth: &mut u64,
    restart_running: bool,
    max_queued: usize,
) -> (step: RestartQueueStep)
    ensures
        step == if !restart_running {
            RestartQueueStep::NotNeeded
        } else if old(limiter)@.queued < max_queued {
            RestartQueueStep::Queued
        } else {
            RestartQueueStep::Full
        },
        final(limiter)@ == if restart_running {
            after_try_enqueue(old(limiter)@, max_queued)
        } else {
            old(limiter)@
        },
        *final(depth) == if step == RestartQueueStep::Queued {
            crate::failures::next_count(*old(depth))
        } else {
            *old(depth)
        },
{
    if !restart_running {
        return RestartQueueStep::NotNeeded;
    }
    if !limiter.try_enqueue(max_queued) {
        return RestartQueueStep::Full;
    }
    *depth = depth.wrapping_add(1);
    RestartQueueStep::Queued
}

/// The number before `count`; before zero comes the largest number.
pub open spec fn count_before(count: u64) -> u64 {
    if count == 0 {
        u64::MAX
    } else {
        (count - 1) as u64
    }
}

/// Leaves the queue for the end of a restart.
pub fn leave_restart_queue(limiter: &mut InFlightLimiter, depth: &mut u64)
    ensures
        final(limiter)@ == after_leave(old(limiter)@),
        *final(depth) == count_before(*old(depth)),
{
    *depth = depth.wrapping_sub(1);
    limiter.leave_queue();
}

/// A request that waited for a restart leaves nothing behind: neither a place in the
/// queue nor a count.
pub proof fn restart_queues_are_left(counts: AdmissionCounts, depth: u64, max: usize)
    requires
        counts.queued < max,
    ensures
        after_leave(after_try_enqueue(counts, max)) == counts,
        count_before(crate::failures::next_count(depth)) == depth,
{
}

// ---------------------------------------------------------------------------
// Admission metadata
// ---------------------------------------------------------------------------

/// What is recorded of an admitted request.
pub open spec fn acquired_bindings(queue_wait_ms: u64) -> Bindings {
    Bindings::empty().insert("admission_outcome"@, "acquired"@).insert(
        "queue_wait_ms"@,
        decimal(queue_wait_ms as nat),
    )
}

/// Records an admitted request.
pub fn acquired_admission_metadata(queue_wait_ms: u64) -> (metadata: Metadata)
    ensures
        metadata@ == acquired_bindings(queue_wait_ms),
{
    let mut metadata = Metadata::new();
    metadata.set("admission_outcome", "acquired");
    metadata.set_number("queue_wait_ms", queue_wait_ms);
    metadata
}

/// Records one of several admissions of a request.
pub fn prefixed_acquired_admission_metadata(prefix: &str, queue_wait_ms: u64) -> (metadata:
    Metadata)
    ensures
        metadata@ == Bindings::empty().insert(
            prefix@ + "_admission_outcome"@,
            "acquired"@,
        ).insert(prefix@ + "_queue_wait_ms"@, decimal(queue_wait_ms as nat)),
{
    let mut metadata = Metadata::new();
    metadata.set(joined(prefix, "_admission_outcome").as_str(), "acquired");
    metadata.set_number(joined(prefix, "_queue_wait_ms").as_str(), queue_wait_ms);
    metadata
}

/// Whether a request asks for the list of models.
pub fn is_control_plane_models_request(method: &str, path: &str) -> (is: bool)
    ensures
        is == (method@ == "GET"@ && path@ == "/v1/models"@),
{
    same_text(method, "GET") && same_text(path, "/v1/models")
}

/// A place is taken by one request only: the count grows by one where there is room,
/// and nothing changes where there is none. Leaving gives one place back.
pub proof fn places_are_counted_one_by_one(counts: AdmissionCounts, max: usize)
    ensures
        counts.active < max ==> after_try_acquire(counts, max).active == counts.active + 1,
        counts.active >= max ==> after_try_acquire(counts, max).active == counts.active,
        after_try_acquire(counts, max).queued == counts.queued,
        counts.queued < max ==> after_try_enqueue(counts, max).queued == counts.queued + 1,
        counts.queued >= max ==> after_try_enqueue(counts, max).queued == counts.queued,
        after_try_enqueue(counts, max).active == counts.active,
        counts.active > 0 ==> after_release(counts).active == counts.active - 1,
        counts.active == 0 ==> after_release(counts).active == 0,
        after_release(counts).queued == counts.queued,
        counts.queued > 0 ==> after_leave(counts).queued == counts.queued - 1,
        counts.queued == 0 ==> after_leave(counts).queued == 0,
        after_leave(counts).active == counts.active,
{
}

/// A request runs while there is room, waits while the queue has room, and is refused
/// otherwise with the status and the advice that are configured. Nobody gets in while
/// the proxy shuts down, and nobody who is refused is counted.
pub proof fn requests_run_wait_or_are_refused(
    counts: AdmissionCounts,
    shutting_down: bool,
    limits: AdmissionLimits,
)
    ensures
        ({
            let (step, after) = admission_of(counts, shutting_down, Ok(limits));
            let room = counts.active < limits.max_in_flight_requests;
            let queue = counts.queued < limits.max_queued_generation_requests;
            &&& step is Acquired <==> !shutting_down && room
            &&& step is Queued <==> !shutting_down && !room && queue
            &&& step is Acquired ==> after.active == counts.active + 1 && after.queued
                == counts.queued
            &&& step is Queued ==> after.active == counts.active && after.queued == counts.queued
                + 1
            &&& step is Refused ==> after == counts
            &&& !shutting_down && !room && !queue ==> (step matches AdmissionStep::Refused(
                AdmissionFailure::GenerationQueueFull { status, retry_after_secs, .. },
            ) && status == limits.generation_queue_full_status && retry_after_secs
                == limits.generation_queue_retry_after_secs)
            &&& shutting_down ==> (step matches AdmissionStep::Refused(
                AdmissionFailure::ShuttingDown { queued },
            ) && queued is None)
        }),
{
}

/// Settings that cannot be read admit nobody.
pub proof fn unread_settings_admit_nobody(
    counts: AdmissionCounts,
    shutting_down: bool,
    failure: AdmissionFailure,
)
    ensures
        admission_of(counts, shutting_down, Err(failure)).0 is Refused,
        admission_of(counts, shutting_down, Err(failure)).1 == counts,
        !shutting_down || failure is ConfigSnapshot ==> admission_of(
            counts,
            shutting_down,
            Err(failure),
        ).0 == AdmissionStep::Refused(failure),
{
}

/// A waiting request gets in as soon as there is room, also when its time has run out;
/// otherwise it is refused when its time has run out, and waits on before that. The
/// wait that is reported is the time since it was queued.
pub proof fn waiting_requests_get_in_or_give_up(
    counts: AdmissionCounts,
    request: QueuedRequest,
    max: usize,
    now_ms: u64,
)
    requires
        request.queued_at_ms <= now_ms,
    ensures
        ({
            let (step, after) = queue_step(counts, request, false, Ok(max), now_ms);
            let waited = now_ms - request.queued_at_ms;
            &&& step is Acquired <==> counts.active < max
            &&& (step matches QueueStep::Acquired { queue_wait_ms } ==> queue_wait_ms == waited
                && after.active == counts.active + 1 && after.queued == counts.queued)
            &&& step is Refused <==> counts.active >= max && waited >= request.timeout_ms
            &&& (step matches QueueStep::Refused(failure) ==> after == counts && (
            failure matches AdmissionFailure::GenerationQueueTimeout {
                generation_queue_timeout_ms,
                queue_wait_ms,
            } && generation_queue_timeout_ms == request.timeout_ms && queue_wait_ms == waited))
            &&& step is Wait ==> after == counts
        }),
        ({
            let (step, after) = queue_step(counts, request, true, Ok(max), now_ms);
            &&& after == counts
            &&& (step matches QueueStep::Refused(AdmissionFailure::ShuttingDown { queued }) && (
            queued matches Some(cancelled) && cancelled.reason is ServerShutdown
                && cancelled.queue_wait_ms == now_ms - request.queued_at_ms
                && cancelled.generation_queue_timeout_ms == request.timeout_ms))
        }),
{
}

/// A refusal is answered by 503, but for a full queue with a status of its own, a model
/// that the listener may not reach and settings that cannot be read.
pub proof fn refusals_have_their_status(failure: AdmissionFailure)
    ensures
        failure is ConfigSnapshot ==> failure.status_code() == 500,
        failure is ListenerUpstreamDenied ==> failure.status_code() == 400,
        failure is GenerationQueueTimeout ==> failure.status_code() == 503,
        failure is ControlPlaneLimitExceeded ==> failure.status_code() == 503,
        failure is ShuttingDown ==> failure.status_code() == 503,
        failure matches AdmissionFailure::GenerationQueueFull {
            max_queued_generation_requests,
            status,
            retry_after_secs,
        } ==> {
            &&& 100 <= status <= 999 ==> failure.status_code() == status
            &&& status < 100 || status > 999 ==> failure.status_code() == 503
            &&& retry_after_secs is Some ==> failure.retry_seconds() == retry_after_secs
            &&& retry_after_secs is None ==> failure.retry_seconds() == Some(1u32)
        },
        failure is GenerationQueueTimeout || failure is ControlPlaneLimitExceeded
            || failure is ShuttingDown ==> failure.retry_seconds() == Some(1u32),
        failure.outcome() is Aborted <==> (failure matches AdmissionFailure::ShuttingDown {
            queued,
        } && queued is Some),
{
}

/// What is recorded of a wait that was given up says why and how long it was.
pub proof fn cancelled_waits_are_recorded(
    cancelled: QueuedAdmissionCancellation,
)
    ensures
        ({
            let told = cancelled_bindings(cancelled);
            &&& told.contains_key("admission_outcome"@) && told["admission_outcome"@] == cancelled.reason.outcome_text()
            &&& told.contains_key("queue_wait_ms"@) && told["queue_wait_ms"@] == decimal(cancelled.queue_wait_ms as nat)
            &&& told.contains_key("generation_queue_timeout_ms"@) && told["generation_queue_timeout_ms"@] == decimal(cancelled.generation_queue_timeout_ms as nat)
        }),
{
    reveal_strlit("admission_outcome");
    reveal_strlit("queue_wait_ms");
    reveal_strlit("generation_queue_timeout_ms");
    assert("admission_outcome"@.len() == 17);
    assert("queue_wait_ms"@.len() == 13);
    assert("generation_queue_timeout_ms"@.len() == 27);
}

/// What is recorded of an admitted request says how long it waited.
pub proof fn admissions_are_recorded(
    queue_wait_ms: u64,
)
    ensures
        ({
            let told = acquired_bindings(queue_wait_ms);
            &&& told.contains_key("admission_outcome"@) && told["admission_outcome"@] == "acquired"@
            &&& told.contains_key("queue_wait_ms"@) && told["queue_wait_ms"@] == decimal(queue_wait_ms as nat)
        }),
{
    reveal_strlit("admission_outcome");
    reveal_strlit("queue_wait_ms");
    assert("admission_outcome"@.len() == 17);
    assert("queue_wait_ms"@.len() == 13);
}

/// A place that is left is one less, and there are never less than none.
pub proof fn places_are_left_one_by_one(count: usize)
    ensures
        count > 0 ==> one_less(count) + 1 == count,
        one_less(0) == 0,
{
}

/// A denial says which listener does not allow which upstream for which model.
pub proof fn denials_tell_who_was_denied_what(
    denied: ListenerUpstreamDenied,
)
    ensures
        ({
            let told = denied_message(denied);
            &&& crate::text::has_part(told, "listener "@ + denied.listener_name@)
            &&& crate::text::has_part(told, " on port "@ + decimal(denied.listener_port as nat))
            &&& crate::text::has_part(told, " does not allow upstream profile "@ + denied.upstream_profile@)
            &&& crate::text::has_part(told, " for model "@ + denied.model_id@)
        }),
{
    let t0 = "listener "@ + denied.listener_name@;
    crate::text::parts_are_found_at_the_end(Seq::<char>::empty(), "listener "@, denied.listener_name@);
    assert(Seq::<char>::empty() + "listener "@ + denied.listener_name@ =~= t0);
    let t1 = t0 + " on port "@ + decimal(denied.listener_port as nat);
    crate::text::parts_are_found_at_the_end(t0, " on port "@, decimal(denied.listener_port as nat));
    crate::text::parts_are_found_in_more(t0, "listener "@ + denied.listener_name@, " on port "@);
    crate::text::parts_are_found_in_more(t0 + " on port "@, "listener "@ + denied.listener_name@, decimal(denied.listener_port as nat));
    let t2 = t1 + " does not allow upstream profile "@ + denied.upstream_profile@;
    crate::text::parts_are_found_at_the_end(t1, " does not allow upstream profile "@, denied.upstream_profile@);
    crate::text::parts_are_found_in_more(t1, "listener "@ + denied.listener_name@, " does not allow upstream profile "@);
    crate::text::parts_are_found_in_more(t1 + " does not allow upstream profile "@, "listener "@ + denied.listener_name@, denied.upstream_profile@);
    crate::text::parts_are_found_in_more(t1, " on port "@ + decimal(denied.listener_port as nat), " does not allow upstream profile "@);
    crate::text::parts_are_found_in_more(t1 + " does not allow upstream profile "@, " on port "@ + decimal(denied.listener_port as nat), denied.upstream_profile@);
    let t3 = t2 + " for model "@ + denied.model_id@;
    crate::text::parts_are_found_at_the_end(t2, " for model "@, denied.model_id@);
    crate::text::parts_are_found_in_more(t2, "listener "@ + denied.listener_name@, " for model "@);
    crate::text::parts_are_found_in_more(t2 + " for model "@, "listener "@ + denied.listener_name@, denied.model_id@);
    crate::text::parts_are_found_in_more(t2, " on port "@ + decimal(denied.listener_port as nat), " for model "@);
    crate::text::parts_are_found_in_more(t2 + " for model "@, " on port "@ + decimal(denied.listener_port as nat), denied.model_id@);
    crate::text::parts_are_found_in_more(t2, " does not allow upstream profile "@ + denied.upstream_profile@, " for model "@);
    crate::text::parts_are_found_in_more(t2 + " for model "@, " does not allow upstream profile "@ + denied.upstream_profile@, denied.model_id@);
}

/// Each reason to give up a wait has a name of its own.
pub proof fn cancelled_waits_have_their_reasons(reason: QueueCancellationReason)
    ensures
        reason is DownstreamDisconnected ==> reason.outcome_text() == "queue_cancelled"@,
        reason is ServerShutdown ==> reason.outcome_text() == "queue_cancelled_shutdown"@,
        reason is DownstreamDisconnected ==> reason.abort_text() == "downstream_disconnected_while_queued"@,
        reason is ServerShutdown ==> reason.abort_text() == "server_shutdown_while_queued"@,
{
}

/// A request that is not admitted is told why.
pub proof fn refused_admissions_are_told_why(failure: AdmissionFailure)
    ensures
        failure is ConfigSnapshot ==> failure.type_text() == "config_snapshot_failed"@,
        failure is GenerationQueueFull ==> failure.type_text() == "proxy_generation_queue_full"@,
        failure is GenerationQueueTimeout ==> failure.type_text() == "proxy_generation_queue_timeout"@,
        failure is ListenerUpstreamDenied ==> failure.type_text() == "listener_upstream_not_allowed"@,
        failure is ControlPlaneLimitExceeded ==> failure.type_text() == "proxy_control_plane_in_flight_limit_exceeded"@,
        failure is ShuttingDown ==> failure.message_text() == "proxy is shutting down"@,
        failure matches AdmissionFailure::ShuttingDown { queued } ==> failure.type_text() == if queued
            is Some {
            "proxy_generation_queue_cancelled"@
        } else {
            "proxy_shutting_down"@
        },
        failure matches AdmissionFailure::ConfigSnapshot(reason) ==> failure.message_text()
            == "failed to read proxy config snapshot: "@ + reason@,
        failure matches AdmissionFailure::GenerationQueueFull {
            max_queued_generation_requests,
            ..
        } ==> failure.message_text()
            == "proxy generation request queue is full: max_queued_generation_requests="@ + decimal(
            max_queued_generation_requests as nat,
        ),
        failure matches AdmissionFailure::GenerationQueueTimeout {
            generation_queue_timeout_ms,
            ..
        } ==> failure.message_text()
            == "proxy generation request queue wait timed out: generation_queue_timeout_ms="@
            + decimal(generation_queue_timeout_ms as nat),
        failure matches AdmissionFailure::ControlPlaneLimitExceeded {
            max_control_plane_in_flight_requests,
        } ==> failure.message_text()
            == "proxy control-plane request limit exceeded: max_control_plane_in_flight_requests="@
            + decimal(max_control_plane_in_flight_requests as nat),
{
}

} // verus!
