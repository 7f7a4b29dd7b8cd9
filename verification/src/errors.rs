//! Errors that end a request, what the client is told of them and what is
//! recorded of them.

use crate::admission::{denied_message, AdmissionFailure, ListenerUpstreamDenied};
use crate::failures::{
    cause_of_kind, ReqwestFailureKind, UpstreamFailureCause, PROXY_SHUTTING_DOWN_ERROR_TYPE,
    SERVER_SHUTDOWN_ABORT_REASON,
};
use crate::metadata::{
    merge_request_metadata, merged_bindings, opt_bindings, Bindings, Metadata,
};
use crate::path::OpenAiPathError;
use crate::records::{
    append_records, clone_records, push_record, record_models, AttemptRecord, AttemptRecordModel,
    AttemptStatus, RequestStatus,
};
use crate::text::{decimal, decimal_text, joined, opt_str_chars};
use vstd::prelude::*;

verus! {

/// What is recorded of a failed upstream request.
pub struct FailedUpstreamObservability {
    pub request_metadata: Metadata,
    pub attempt_record: AttemptRecord,
    pub completed_attempt_records: Vec<AttemptRecord>,
}

/// The meaning of what is recorded of a failed upstream request.
#[verifier::ext_equal]
pub struct ObservabilityModel {
    pub request_metadata: Bindings,
    pub attempt_record: AttemptRecordModel,
    pub completed: Seq<AttemptRecordModel>,
}

impl View for FailedUpstreamObservability {
    type V = ObservabilityModel;

    open spec fn view(&self) -> ObservabilityModel {
        ObservabilityModel {
            request_metadata: self.request_metadata@,
            attempt_record: self.attempt_record@,
            completed: record_models(self.completed_attempt_records@),
        }
    }
}

/// The meaning of an optional record of a failed upstream request.
pub open spec fn opt_observability(observability: Option<FailedUpstreamObservability>) -> Option<
    ObservabilityModel,
> {
    match observability {
        Some(observability) => Some(observability@),
        None => None,
    }
}

/// What ended a request.
#[allow(inconsistent_fields)]
pub enum ErrorKind {
    RequestBody { reason: String },
    ConfigSnapshot { reason: String },
    InvalidUpstreamUrl { display_url: String, reason: String },
    InvalidRequestPath(OpenAiPathError),
    InvalidMethod { reason: String },
    Admission { failure: AdmissionFailure },
    ListenerUpstreamDenied { failure: ListenerUpstreamDenied },
    Shutdown,
    GuardBlocked { reason: String },
    VirtualKeyUnauthorized,
    BudgetExceeded { profile: String, date: String, current_count: u64, limit: u64 },
    BudgetStoreFailure { reason: String },
    UpstreamUnavailable { profile: String, waited_ms: u64 },
    UpstreamTransport { failure: ReqwestFailureKind },
    UpstreamBody { reason: String },
    ContextBudgetExceeded { message: String, param: &'static str, code: &'static str },
}

/// An error that ends a request: what it is, the metadata of the request, and
/// the attempts that were made. An upstream failure may hold the record of its
/// attempt in place of both.
pub struct ProxyError {
    pub kind: ErrorKind,
    pub request_metadata: Option<Metadata>,
    pub attempts: Vec<AttemptRecord>,
    pub observability: Option<FailedUpstreamObservability>,
}

/// The meaning of an error.
#[verifier::ext_equal]
pub struct ProxyErrorModel {
    pub kind: ErrorKind,
    pub request_metadata: Option<Bindings>,
    pub attempts: Seq<AttemptRecordModel>,
    pub observability: Option<ObservabilityModel>,
}

impl View for ProxyError {
    type V = ProxyErrorModel;

    open spec fn view(&self) -> ProxyErrorModel {
        ProxyErrorModel {
            kind: self.kind,
            request_metadata: opt_bindings(self.request_metadata),
            attempts: record_models(self.attempts@),
            observability: opt_observability(self.observability),
        }
    }
}

impl ErrorKind {
    /// Whether the error is a failure of an upstream.
    pub open spec fn is_upstream_failure(self) -> bool {
        self is UpstreamTransport || self is UpstreamBody
    }

    /// Whether the error carries metadata of its own.
    pub open spec fn carries_metadata(self) -> bool {
        !self.is_upstream_failure() && !(self is InvalidRequestPath)
    }

    /// Whether further metadata is merged into what the error carries.
    pub open spec fn merges_metadata(self) -> bool {
        self is VirtualKeyUnauthorized || self is ContextBudgetExceeded || self is BudgetExceeded
    }

    /// Whether the error carries attempts of its own.
    pub open spec fn carries_attempts(self) -> bool {
        self is Shutdown || self is UpstreamUnavailable || self is ContextBudgetExceeded
    }

    /// The HTTP status of an error.
    pub open spec fn status_code(self) -> u16 {
        match self {
            ErrorKind::RequestBody { .. } => 413,
            ErrorKind::ConfigSnapshot { .. } => 500,
            ErrorKind::InvalidUpstreamUrl { .. } => 500,
            ErrorKind::InvalidMethod { .. } => 500,
            ErrorKind::InvalidRequestPath(error) => error.status_code(),
            ErrorKind::Admission { failure } => failure.status_code(),
            ErrorKind::Shutdown => 503,
            ErrorKind::UpstreamUnavailable { .. } => 503,
            ErrorKind::VirtualKeyUnauthorized => 401,
            ErrorKind::BudgetExceeded { .. } => 429,
            ErrorKind::BudgetStoreFailure { .. } => 500,
            ErrorKind::GuardBlocked { .. } => 403,
            ErrorKind::ListenerUpstreamDenied { .. } => 400,
            ErrorKind::ContextBudgetExceeded { .. } => 400,
            ErrorKind::UpstreamTransport { .. } => 502,
            ErrorKind::UpstreamBody { .. } => 502,
        }
    }

    /// The error type of an error.
    pub open spec fn type_text(self) -> Seq<char> {
        match self {
            ErrorKind::RequestBody { .. } => "request_body_error"@,
            ErrorKind::ConfigSnapshot { .. } => "config_snapshot_failed"@,
            ErrorKind::InvalidUpstreamUrl { .. } => "invalid_upstream_url"@,
            ErrorKind::InvalidRequestPath(error) => error.type_text(),
            ErrorKind::InvalidMethod { .. } => "invalid_method"@,
            ErrorKind::Admission { failure } => failure.type_text(),
            ErrorKind::ListenerUpstreamDenied { .. } => "listener_upstream_not_allowed"@,
            ErrorKind::Shutdown => PROXY_SHUTTING_DOWN_ERROR_TYPE@,
            ErrorKind::UpstreamUnavailable { .. } => "upstream_unavailable"@,
            ErrorKind::VirtualKeyUnauthorized => "virtual_key_unauthorized"@,
            ErrorKind::BudgetExceeded { .. } => "budget_exhausted"@,
            ErrorKind::BudgetStoreFailure { .. } => "budget_store_failed"@,
            ErrorKind::GuardBlocked { .. } => "guard_blocked"@,
            ErrorKind::ContextBudgetExceeded { .. } => "invalid_request_error"@,
            ErrorKind::UpstreamTransport { .. } => "upstream_transport_error"@,
            ErrorKind::UpstreamBody { .. } => "upstream_body_error"@,
        }
    }

    /// The request status of an error.
    pub open spec fn outcome(self) -> RequestStatus {
        match self {
            ErrorKind::Admission { failure } => failure.outcome(),
            ErrorKind::Shutdown => RequestStatus::Aborted,
            _ => RequestStatus::Failed,
        }
    }

    /// The abort reason of an error.
    pub open spec fn abort_text(self) -> Option<Seq<char>> {
        match self {
            ErrorKind::Admission { failure } => failure.abort_text(),
            ErrorKind::Shutdown => Some(SERVER_SHUTDOWN_ABORT_REASON@),
            _ => None,
        }
    }

    /// The cause bucket of an upstream failure.
    pub open spec fn cause(self) -> Option<UpstreamFailureCause> {
        match self {
            ErrorKind::UpstreamTransport { failure } => Some(cause_of_kind(failure)),
            ErrorKind::UpstreamBody { .. } => Some(UpstreamFailureCause::BodyError),
            _ => None,
        }
    }

    /// The message of an error.
    pub open spec fn message_text(self) -> Seq<char> {
        match self {
            ErrorKind::RequestBody {
                reason,
            } => "failed to read request body within proxy limit: "@ + reason@,
            ErrorKind::ConfigSnapshot { reason } => "failed to read current config: "@ + reason@,
            ErrorKind::InvalidUpstreamUrl {
                display_url,
                reason,
            } => "invalid upstream base URL "@ + display_url@ + ": "@ + reason@,
            ErrorKind::InvalidRequestPath(error) => error.message_text(),
            ErrorKind::InvalidMethod { reason } => "invalid HTTP method: "@ + reason@,
            ErrorKind::Admission { failure } => failure.message_text(),
            ErrorKind::ListenerUpstreamDenied { failure } => denied_message(failure),
            ErrorKind::Shutdown => "proxy is shutting down"@,
            ErrorKind::GuardBlocked { reason } => "guard workflow blocked request: "@ + reason@,
            ErrorKind::VirtualKeyUnauthorized => "virtual key is required or not recognized"@,
            ErrorKind::BudgetExceeded {
                profile,
                date,
                current_count,
                limit,
            } => "daily request budget exceeded for profile "@ + profile@ + ": count="@ + decimal(
                current_count as nat,
            ) + " limit="@ + decimal(limit as nat) + " date="@ + date@,
            ErrorKind::BudgetStoreFailure { reason } => "budget store failed: "@ + reason@,
            ErrorKind::UpstreamUnavailable {
                profile,
                waited_ms,
            } => "no healthy upstream endpoint for profile "@ + profile@ + " after "@ + decimal(
                waited_ms as nat,
            ) + "ms"@,
            ErrorKind::UpstreamTransport { failure } => "upstream request failed: "@
                + failure.label(),
            ErrorKind::UpstreamBody {
                reason,
            } => "failed to read upstream response body within proxy limit: "@ + reason@,
            ErrorKind::ContextBudgetExceeded { message, .. } => message@,
        }
    }
}

/// An error that nothing is recorded of yet.
pub open spec fn bare_error(kind: ErrorKind) -> ProxyErrorModel {
    ProxyErrorModel {
        kind,
        request_metadata: None,
        attempts: Seq::empty(),
        observability: None,
    }
}

/// Whether an error tells the client that the request cannot be served as it
/// stands, and why.
pub open spec fn is_invalid_request(
    kind: ErrorKind,
    message: Seq<char>,
    param: Seq<char>,
    code: Seq<char>,
) -> bool {
    match kind {
        ErrorKind::ContextBudgetExceeded {
            message: told,
            param: at,
            code: named,
        } => told@ == message && at@ == param && named@ == code,
        _ => false,
    }
}

/// What is recorded of a refused virtual key.
pub open spec fn unauthorized_bindings() -> Bindings {
    Bindings::empty().insert("virtual_key_resolution"@, "fail_closed"@)
}

/// What is recorded of an exhausted budget.
pub open spec fn budget_bindings(
    profile: Seq<char>,
    date: Seq<char>,
    current_count: u64,
    limit: u64,
) -> Bindings {
    Bindings::empty().insert("caller_profile"@, profile).insert("budget_date"@, date).insert(
        "budget_count"@,
        decimal(current_count as nat),
    ).insert("budget_limit"@, decimal(limit as nat)).insert("budget_outcome"@, "limit_exceeded"@)
}

/// The record of an attempt that a shutdown ended.
pub open spec fn shutdown_record(record: AttemptRecordModel) -> AttemptRecordModel {
    AttemptRecordModel {
        status: AttemptStatus::Aborted,
        retry_reason: None,
        abort_reason: Some(SERVER_SHUTDOWN_ABORT_REASON@),
        response_metadata: record.response_metadata.insert(
            "abort_reason"@,
            SERVER_SHUTDOWN_ABORT_REASON@,
        ),
        ..record
    }
}

/// Notes on the record of an attempt that a shutdown ended it.
pub fn shutdown_attempt_record(record: AttemptRecord) -> (noted: AttemptRecord)
    ensures
        noted@ == shutdown_record(record@),
{
    let mut record = record;
    record.status = AttemptStatus::Aborted;
    record.retry_reason = None;
    record.abort_reason = Some(SERVER_SHUTDOWN_ABORT_REASON.to_owned());
    record.response_metadata.set("abort_reason", SERVER_SHUTDOWN_ABORT_REASON);
    record
}

/// The attempts that an error tells of.
pub open spec fn error_attempts(error: ProxyErrorModel) -> Seq<AttemptRecordModel> {
    if error.kind.is_upstream_failure() {
        match error.observability {
            Some(observability) => observability.completed.push(observability.attempt_record),
            None => Seq::empty(),
        }
    } else if error.kind.carries_attempts() {
        error.attempts
    } else {
        Seq::empty()
    }
}

/// The request metadata that an error tells of.
pub open spec fn error_metadata(error: ProxyErrorModel) -> Option<Bindings> {
    if error.kind.is_upstream_failure() {
        match error.observability {
            Some(observability) => Some(observability.request_metadata),
            None => None,
        }
    } else if error.kind.carries_metadata() {
        error.request_metadata
    } else {
        None
    }
}

/// An error with the metadata of its request.
pub open spec fn with_metadata(error: ProxyErrorModel, metadata: Bindings) -> ProxyErrorModel {
    if !error.kind.carries_metadata() {
        error
    } else if error.kind.merges_metadata() {
        ProxyErrorModel {
            request_metadata: Some(merged_bindings(error.request_metadata, metadata)),
            ..error
        }
    } else {
        ProxyErrorModel { request_metadata: Some(metadata), ..error }
    }
}

/// An error with the record of the attempt that it ended.
pub open spec fn with_attempt(
    error: ProxyErrorModel,
    metadata: Bindings,
    record: AttemptRecordModel,
) -> ProxyErrorModel {
    if error.kind.is_upstream_failure() {
        ProxyErrorModel {
            observability: Some(
                ObservabilityModel {
                    request_metadata: metadata,
                    attempt_record: record,
                    completed: Seq::empty(),
                },
            ),
            ..error
        }
    } else if error.kind is Shutdown {
        ProxyErrorModel {
            request_metadata: Some(metadata),
            attempts: seq![shutdown_record(record)],
            ..error
        }
    } else {
        error
    }
}

/// An error with attempts that came before those it tells of.
pub open spec fn with_earlier_attempts(
    error: ProxyErrorModel,
    earlier: Seq<AttemptRecordModel>,
) -> ProxyErrorModel {
    if error.kind.is_upstream_failure() {
        match error.observability {
            Some(observability) => ProxyErrorModel {
                observability: Some(
                    ObservabilityModel {
                        completed: earlier + observability.completed,
                        ..observability
                    },
                ),
                ..error
            },
            None => error,
        }
    } else if error.kind.carries_attempts() {
        ProxyErrorModel { attempts: earlier + error.attempts, ..error }
    } else {
        error
    }
}

fn bare(kind: ErrorKind) -> (error: ProxyError)
    ensures
        error@ == bare_error(kind),
{
    let error = ProxyError {
        kind,
        request_metadata: None,
        attempts: Vec::new(),
        observability: None,
    };
    assert(error@ =~= bare_error(kind));
    error
}

impl ProxyError {
    /// A request body that could not be read.
    pub fn request_body(reason: String) -> (error: ProxyError)
        ensures
            error@ == bare_error(ErrorKind::RequestBody { reason }),
    {
        bare(ErrorKind::RequestBody { reason })
    }

    /// A configuration that could not be read.
    pub fn config_snapshot(reason: String) -> (error: ProxyError)
        ensures
            error@ == bare_error(ErrorKind::ConfigSnapshot { reason }),
    {
        bare(ErrorKind::ConfigSnapshot { reason })
    }

    /// An upstream URL that is none; `display_url` may be shown.
    pub fn invalid_upstream_url(display_url: String, reason: String) -> (error: ProxyError)
        ensures
            error@ == bare_error(ErrorKind::InvalidUpstreamUrl { display_url, reason }),
    {
        bare(ErrorKind::InvalidUpstreamUrl { display_url, reason })
    }

    /// A request path that is not proxied.
    pub fn invalid_request_path(path_error: OpenAiPathError) -> (error: ProxyError)
        ensures
            error@ == bare_error(ErrorKind::InvalidRequestPath(path_error)),
    {
        bare(ErrorKind::InvalidRequestPath(path_error))
    }

    /// A method that the upstream client does not take.
    pub fn invalid_method(reason: String) -> (error: ProxyError)
        ensures
            error@ == bare_error(ErrorKind::InvalidMethod { reason }),
    {
        bare(ErrorKind::InvalidMethod { reason })
    }

    /// A request that is not admitted.
    pub fn admission(failure: AdmissionFailure) -> (error: ProxyError)
        ensures
            error@ == bare_error(ErrorKind::Admission { failure }),
    {
        bare(ErrorKind::Admission { failure })
    }

    /// A profile that the listener does not serve.
    pub fn listener_denied(failure: ListenerUpstreamDenied) -> (error: ProxyError)
        ensures
            error@ == bare_error(ErrorKind::ListenerUpstreamDenied { failure }),
    {
        bare(ErrorKind::ListenerUpstreamDenied { failure })
    }

    /// A shutdown of the server.
    pub fn server_shutdown() -> (error: ProxyError)
        ensures
            error@ == bare_error(ErrorKind::Shutdown),
    {
        bare(ErrorKind::Shutdown)
    }

    /// A profile without a healthy endpoint.
    pub fn upstream_unavailable(profile: String, waited_ms: u64) -> (error: ProxyError)
        ensures
            error@ == bare_error(ErrorKind::UpstreamUnavailable { profile, waited_ms }),
    {
        bare(ErrorKind::UpstreamUnavailable { profile, waited_ms })
    }

    /// A failure of the upstream client.
    pub fn upstream_transport(failure: ReqwestFailureKind) -> (error: ProxyError)
        ensures
            error@ == bare_error(ErrorKind::UpstreamTransport { failure }),
    {
        bare(ErrorKind::UpstreamTransport { failure })
    }

    /// A response body that could not be read.
    pub fn upstream_body(reason: String) -> (error: ProxyError)
        ensures
            error@ == bare_error(ErrorKind::UpstreamBody { reason }),
    {
        bare(ErrorKind::UpstreamBody { reason })
    }

    /// A request that a guard workflow blocks.
    pub fn guard_blocked(reason: String) -> (error: ProxyError)
        ensures
            error@ == bare_error(ErrorKind::GuardBlocked { reason }),
    {
        bare(ErrorKind::GuardBlocked { reason })
    }

    /// A request without a known virtual key.
    pub fn virtual_key_unauthorized() -> (error: ProxyError)
        ensures
            error@ == (ProxyErrorModel {
                request_metadata: Some(unauthorized_bindings()),
                ..bare_error(ErrorKind::VirtualKeyUnauthorized)
            }),
    {
        let mut metadata = Metadata::new();
        metadata.set("virtual_key_resolution", "fail_closed");
        let mut error = bare(ErrorKind::VirtualKeyUnauthorized);
        error.request_metadata = Some(metadata);
        error
    }

    /// A request over the daily budget of its profile.
    pub fn budget_exceeded(profile: String, date: String, current_count: u64, limit: u64) -> (error:
        ProxyError)
        ensures
            error@ == (ProxyErrorModel {
                request_metadata: Some(budget_bindings(profile@, date@, current_count, limit)),
                ..bare_error(ErrorKind::BudgetExceeded { profile, date, current_count, limit })
            }),
    {
        let mut metadata = Metadata::new();
        metadata.set("caller_profile", profile.as_str());
        metadata.set("budget_date", date.as_str());
        metadata.set_number("budget_count", current_count);
        metadata.set_number("budget_limit", limit);
        metadata.set("budget_outcome", "limit_exceeded");
        let mut error = bare(ErrorKind::BudgetExceeded { profile, date, current_count, limit });
        error.request_metadata = Some(metadata);
        error
    }

    /// A budget that could not be read.
    pub fn budget_store_failed(reason: String) -> (error: ProxyError)
        ensures
            error@ == bare_error(ErrorKind::BudgetStoreFailure { reason }),
    {
        bare(ErrorKind::BudgetStoreFailure { reason })
    }

    /// A request that does not fit the context window of its model.
    pub fn context_budget_exceeded(message: String, param: &'static str, metadata: Metadata) -> (
        error: ProxyError)
        ensures
            is_invalid_request(error.kind, message@, param@, "context_budget_exceeded"@),
            error@ == (ProxyErrorModel {
                request_metadata: Some(metadata@),
                ..bare_error(error.kind)
            }),
    {
        let code = "context_budget_exceeded";
        let mut error = bare(ErrorKind::ContextBudgetExceeded { message, param, code });
        error.request_metadata = Some(metadata);
        error
    }

    /// A request that cannot be served as it stands.
    pub fn invalid_request(message: String, param: &'static str, code: &'static str) -> (error:
        ProxyError)
        ensures
            error@ == bare_error(ErrorKind::ContextBudgetExceeded { message, param, code }),
    {
        bare(ErrorKind::ContextBudgetExceeded { message, param, code })
    }

    /// The HTTP status given to the client.
    pub fn status(&self) -> (status: u16)
        ensures
            status == self.kind.status_code(),
    {
        match &self.kind {
            ErrorKind::RequestBody { .. } => 413,
            ErrorKind::ConfigSnapshot { .. } => 500,
            ErrorKind::InvalidUpstreamUrl { .. } => 500,
            ErrorKind::InvalidMethod { .. } => 500,
            ErrorKind::InvalidRequestPath(error) => error.status(),
            ErrorKind::Admission { failure } => failure.status(),
            ErrorKind::Shutdown => 503,
            ErrorKind::UpstreamUnavailable { .. } => 503,
            ErrorKind::VirtualKeyUnauthorized => 401,
            ErrorKind::BudgetExceeded { .. } => 429,
            ErrorKind::BudgetStoreFailure { .. } => 500,
            ErrorKind::GuardBlocked { .. } => 403,
            ErrorKind::ListenerUpstreamDenied { .. } => 400,
            ErrorKind::ContextBudgetExceeded { .. } => 400,
            ErrorKind::UpstreamTransport { .. } => 502,
            ErrorKind::UpstreamBody { .. } => 502,
        }
    }

    /// The error type given to the client.
    pub fn error_type(&self) -> (error_type: &'static str)
        ensures
            error_type@ == self.kind.type_text(),
    {
        match &self.kind {
            ErrorKind::RequestBody { .. } => "request_body_error",
            ErrorKind::ConfigSnapshot { .. } => "config_snapshot_failed",
            ErrorKind::InvalidUpstreamUrl { .. } => "invalid_upstream_url",
            ErrorKind::InvalidRequestPath(error) => error.error_type(),
            ErrorKind::InvalidMethod { .. } => "invalid_method",
            ErrorKind::Admission { failure } => failure.error_type(),
            ErrorKind::ListenerUpstreamDenied { .. } => "listener_upstream_not_allowed",
            ErrorKind::Shutdown => PROXY_SHUTTING_DOWN_ERROR_TYPE,
            ErrorKind::UpstreamUnavailable { .. } => "upstream_unavailable",
            ErrorKind::VirtualKeyUnauthorized => "virtual_key_unauthorized",
            ErrorKind::BudgetExceeded { .. } => "budget_exhausted",
            ErrorKind::BudgetStoreFailure { .. } => "budget_store_failed",
            ErrorKind::GuardBlocked { .. } => "guard_blocked",
            ErrorKind::ContextBudgetExceeded { .. } => "invalid_request_error",
            ErrorKind::UpstreamTransport { .. } => "upstream_transport_error",
            ErrorKind::UpstreamBody { .. } => "upstream_body_error",
        }
    }

    /// The status that is recorded.
    pub fn request_status(&self) -> (status: RequestStatus)
        ensures
            status == self.kind.outcome(),
    {
        match &self.kind {
            ErrorKind::Admission { failure } => failure.request_status(),
            ErrorKind::Shutdown => RequestStatus::Aborted,
            _ => RequestStatus::Failed,
        }
    }

    /// The abort reason that is recorded.
    pub fn abort_reason(&self) -> (reason: Option<&'static str>)
        ensures
            opt_str_chars(reason) == self.kind.abort_text(),
    {
        match &self.kind {
            ErrorKind::Admission { failure } => failure.abort_reason(),
            ErrorKind::Shutdown => Some(SERVER_SHUTDOWN_ABORT_REASON),
            _ => None,
        }
    }

    /// The cause bucket of an upstream failure; none for any other error.
    pub fn upstream_failure_cause(&self) -> (cause: Option<UpstreamFailureCause>)
        ensures
            cause == self.kind.cause(),
    {
        match &self.kind {
            ErrorKind::UpstreamTransport { failure } => Some(
                UpstreamFailureCause::from_reqwest_failure(*failure),
            ),
            ErrorKind::UpstreamBody { .. } => Some(UpstreamFailureCause::BodyError),
            _ => None,
        }
    }

    /// The message given to the client.
    pub fn message(&self) -> (message: String)
        ensures
            message@ == self.kind.message_text(),
    {
        match &self.kind {
            ErrorKind::RequestBody { reason } => joined(
                "failed to read request body within proxy limit: ",
                reason.as_str(),
            ),
            ErrorKind::ConfigSnapshot { reason } => joined(
                "failed to read current config: ",
                reason.as_str(),
            ),
            ErrorKind::InvalidUpstreamUrl { display_url, reason } => {
                let mut message = joined("invalid upstream base URL ", display_url.as_str());
                message.append(": ");
                message.append(reason.as_str());
                message
            },
            ErrorKind::InvalidRequestPath(error) => error.message().to_owned(),
            ErrorKind::InvalidMethod { reason } => joined(
                "invalid HTTP method: ",
                reason.as_str(),
            ),
            ErrorKind::Admission { failure } => failure.message(),
            ErrorKind::ListenerUpstreamDenied { failure } => failure.message(),
            ErrorKind::Shutdown => "proxy is shutting down".to_owned(),
            ErrorKind::GuardBlocked { reason } => joined(
                "guard workflow blocked request: ",
                reason.as_str(),
            ),
            ErrorKind::VirtualKeyUnauthorized => "virtual key is required or not recognized".to_owned(),
            ErrorKind::BudgetExceeded { profile, date, current_count, limit } => {
                let mut message = joined(
                    "daily request budget exceeded for profile ",
                    profile.as_str(),
                );
                message.append(": count=");
                message.append(decimal_text(*current_count).as_str());
                message.append(" limit=");
                message.append(decimal_text(*limit).as_str());
                message.append(" date=");
                message.append(date.as_str());
                message
            },
            ErrorKind::BudgetStoreFailure { reason } => joined(
                "budget store failed: ",
                reason.as_str(),
            ),
            ErrorKind::UpstreamUnavailable { profile, waited_ms } => {
                let mut message = joined(
                    "no healthy upstream endpoint for profile ",
                    profile.as_str(),
                );
                message.append(" after ");
                message.append(decimal_text(*waited_ms).as_str());
                message.append("ms");
                message
            },
            ErrorKind::UpstreamTransport { failure } => joined(
                "upstream request failed: ",
                failure.as_str(),
            ),
            ErrorKind::UpstreamBody { reason } => joined(
                "failed to read upstream response body within proxy limit: ",
                reason.as_str(),
            ),
            ErrorKind::ContextBudgetExceeded { message, .. } => message.clone(),
        }
    }

    /// The request metadata that the error tells of.
    pub fn request_metadata(&self) -> (metadata: Option<Metadata>)
        ensures
            opt_bindings(metadata) == error_metadata(self@),
    {
        match &self.kind {
            ErrorKind::UpstreamTransport { .. } | ErrorKind::UpstreamBody { .. } => {
                match &self.observability {
                    Some(observability) => Some(observability.request_metadata.clone()),
                    None => None,
                }
            },
            ErrorKind::InvalidRequestPath(_) => None,
            _ => match &self.request_metadata {
                Some(metadata) => Some(metadata.clone()),
                None => None,
            },
        }
    }

    /// The attempts that the error tells of, in order.
    pub fn attempt_records(&self) -> (records: Vec<AttemptRecord>)
        ensures
            record_models(records@) == error_attempts(self@),
    {
        match &self.kind {
            ErrorKind::UpstreamTransport { .. } | ErrorKind::UpstreamBody { .. } => {
                match &self.observability {
                    Some(observability) => {
                        let mut records = clone_records(&observability.completed_attempt_records);
                        push_record(&mut records, observability.attempt_record.clone());
                        return records;
                    },
                    None => {},
                }
            },
            ErrorKind::Shutdown
            | ErrorKind::UpstreamUnavailable { .. }
            | ErrorKind::ContextBudgetExceeded { .. } => {
                return clone_records(&self.attempts);
            },
            _ => {},
        }
        let none: Vec<AttemptRecord> = Vec::new();
        assert(record_models(none@) =~= Seq::<AttemptRecordModel>::empty());
        none
    }

    /// The error with the metadata of its request.
    pub fn with_request_metadata(self, request_metadata: Metadata) -> (error: ProxyError)
        ensures
            error@ == with_metadata(self@, request_metadata@),
    {
        let mut error = self;
        match &error.kind {
            ErrorKind::InvalidRequestPath(_)
            | ErrorKind::UpstreamTransport { .. }
            | ErrorKind::UpstreamBody { .. } => {
                return error;
            },
            ErrorKind::VirtualKeyUnauthorized
            | ErrorKind::ContextBudgetExceeded { .. }
            | ErrorKind::BudgetExceeded { .. } => {
                let existing = error.request_metadata.take();
                error.request_metadata = Some(merge_request_metadata(existing, request_metadata));
            },
            _ => {
                error.request_metadata = Some(request_metadata);
            },
        }
        error
    }

    /// The error with the record of the attempt that it ended.
    pub fn with_observability(self, request_metadata: Metadata, attempt_record: AttemptRecord) -> (
        error: ProxyError)
        ensures
            error@ == with_attempt(self@, request_metadata@, attempt_record@),
    {
        let mut error = self;
        match &error.kind {
            ErrorKind::UpstreamTransport { .. } | ErrorKind::UpstreamBody { .. } => {
                let none: Vec<AttemptRecord> = Vec::new();
                assert(record_models(none@) =~= Seq::<AttemptRecordModel>::empty());
                error.observability = Some(
                    FailedUpstreamObservability {
                        request_metadata,
                        attempt_record,
                        completed_attempt_records: none,
                    },
                );
            },
            ErrorKind::Shutdown => {
                let mut attempts: Vec<AttemptRecord> = Vec::new();
                attempts.push(shutdown_attempt_record(attempt_record));
                assert(record_models(attempts@) =~= seq![shutdown_record(attempt_record@)]);
                error.request_metadata = Some(request_metadata);
                error.attempts = attempts;
            },
            _ => {},
        }
        error
    }

    /// The error with attempts that came before those it tells of.
    pub fn with_completed_attempt_records(self, completed: Vec<AttemptRecord>) -> (error:
        ProxyError)
        ensures
            error@ == with_earlier_attempts(self@, record_models(completed@)),
    {
        let ghost model = self@;
        let mut error = self;
        let mut completed = completed;
        match &error.kind {
            ErrorKind::UpstreamTransport { .. } | ErrorKind::UpstreamBody { .. } => {
                match error.observability.take() {
                    Some(observability) => {
                        append_records(&mut completed, observability.completed_attempt_records);
                        error.observability = Some(
                            FailedUpstreamObservability {
                                request_metadata: observability.request_metadata,
                                attempt_record: observability.attempt_record,
                                completed_attempt_records: completed,
                            },
                        );
                    },
                    None => {},
                }
            },
            ErrorKind::Shutdown
            | ErrorKind::UpstreamUnavailable { .. }
            | ErrorKind::ContextBudgetExceeded { .. } => {
                let mut later: Vec<AttemptRecord> = Vec::new();
                later.append(&mut error.attempts);
                assert(record_models(later@) =~= model.attempts);
                append_records(&mut completed, later);
                error.attempts = completed;
            },
            _ => {},
        }
        error
    }
}

/// Attempts added before keep their order before those that an error told of
/// already.
pub proof fn earlier_attempts_come_first(
    error: ProxyErrorModel,
    earlier: Seq<AttemptRecordModel>,
)
    requires
        error.kind.carries_attempts() || (error.kind.is_upstream_failure()
            && error.observability is Some),
    ensures
        error_attempts(with_earlier_attempts(error, earlier)) == earlier + error_attempts(error),
{
    let after = with_earlier_attempts(error, earlier);
    assert(error_attempts(after) =~= earlier + error_attempts(error));
}

/// Adding no earlier attempts changes nothing.
pub proof fn no_earlier_attempts_change_nothing(error: ProxyErrorModel)
    ensures
        with_earlier_attempts(error, Seq::empty()) == error,
{
    let after = with_earlier_attempts(error, Seq::empty());
    match error.observability {
        Some(observability) => {
            assert(Seq::<AttemptRecordModel>::empty() + observability.completed
                =~= observability.completed);
        },
        None => {},
    }
    assert(Seq::<AttemptRecordModel>::empty() + error.attempts =~= error.attempts);
    assert(after =~= error);
}

/// An error is answered by the status of its kind: what the client did wrong by one in
/// the four hundreds, what the upstream did by 502, what the proxy lacks by 503, and
/// what is wrong with the proxy by 500.
pub proof fn errors_have_their_status(kind: ErrorKind)
    ensures
        kind is RequestBody ==> kind.status_code() == 413,
        kind is VirtualKeyUnauthorized ==> kind.status_code() == 401,
        kind is BudgetExceeded ==> kind.status_code() == 429,
        kind is GuardBlocked ==> kind.status_code() == 403,
        kind is ListenerUpstreamDenied ==> kind.status_code() == 400,
        kind is ContextBudgetExceeded ==> kind.status_code() == 400,
        kind is UpstreamTransport ==> kind.status_code() == 502,
        kind is UpstreamBody ==> kind.status_code() == 502,
        kind is Shutdown ==> kind.status_code() == 503,
        kind is UpstreamUnavailable ==> kind.status_code() == 503,
        kind is ConfigSnapshot ==> kind.status_code() == 500,
        kind is InvalidUpstreamUrl ==> kind.status_code() == 500,
        kind is InvalidMethod ==> kind.status_code() == 500,
        kind is BudgetStoreFailure ==> kind.status_code() == 500,
        kind matches ErrorKind::InvalidRequestPath(error) ==> kind.status_code() == if error
            is DotSegment {
            400u16
        } else {
            404u16
        },
        kind matches ErrorKind::Admission { failure } ==> kind.status_code()
            == failure.status_code(),
{
}

/// An upstream failure has a cause and no other error has one; only a shutdown and a
/// request that was given up while it waited are aborted.
pub proof fn upstream_failures_have_a_cause(kind: ErrorKind, failure: ReqwestFailureKind)
    ensures
        kind.cause() is Some <==> kind is UpstreamTransport || kind is UpstreamBody,
        kind is UpstreamBody ==> kind.cause() == Some(UpstreamFailureCause::BodyError),
        (ErrorKind::UpstreamTransport { failure }).cause() == Some(cause_of_kind(failure)),
        kind is Shutdown ==> kind.outcome() is Aborted && kind.abort_text() == Some(
            "server_shutdown"@,
        ),
        !(kind is Shutdown) && !(kind is Admission) ==> kind.outcome() is Failed
            && kind.abort_text() is None,
{
}

/// An error that an attempt ended in carries the record of it: an upstream failure as
/// it is, and a shutdown as an attempt that was aborted.
pub proof fn failed_attempts_are_carried(
    error: ProxyErrorModel,
    metadata: Bindings,
    record: AttemptRecordModel,
)
    ensures
        error.kind is UpstreamTransport || error.kind is UpstreamBody ==> error_attempts(
            with_attempt(error, metadata, record),
        ) == seq![record] && error_metadata(with_attempt(error, metadata, record)) == Some(
            metadata,
        ),
        error.kind is Shutdown ==> {
            let attempts = error_attempts(with_attempt(error, metadata, record));
            &&& attempts.len() == 1
            &&& attempts[0].attempt_id == record.attempt_id
            &&& attempts[0].attempt_number == record.attempt_number
            &&& attempts[0].status is Aborted
            &&& attempts[0].abort_reason == Some("server_shutdown"@)
            &&& attempts[0].retry_reason is None
        },
        with_attempt(error, metadata, record).kind == error.kind,
{
    assert(Seq::<AttemptRecordModel>::empty().push(record) =~= seq![record]);
}

/// What is known of a request is kept with its error; what the error told already stays
/// where it is merged, and the rest is replaced.
pub proof fn errors_keep_what_is_known(
    error: ProxyErrorModel,
    metadata: Bindings,
    key: Seq<char>,
)
    requires
        metadata.contains_key(key),
        !error.kind.is_upstream_failure(),
        !(error.kind is InvalidRequestPath),
    ensures
        error_metadata(with_metadata(error, metadata)) matches Some(told) && told.contains_key(key),
        !error.kind.merges_metadata() ==> error_metadata(with_metadata(error, metadata)) == Some(
            metadata,
        ),
        with_metadata(error, metadata).kind == error.kind,
        with_metadata(error, metadata).attempts == error.attempts,
{
}

/// A bare error is its kind and nothing else; an invalid request says what is wrong with
/// which part of it.
pub proof fn bare_errors_are_bare(
    kind: ErrorKind,
    message: Seq<char>,
    param: Seq<char>,
    code: Seq<char>,
)
    ensures
        bare_error(kind).kind == kind,
        bare_error(kind).request_metadata is None,
        bare_error(kind).attempts.len() == 0,
        bare_error(kind).observability is None,
        is_invalid_request(kind, message, param, code) ==> (kind matches ErrorKind::ContextBudgetExceeded {
            message: told,
            param: at,
            code: named,
        } && told@ == message && at@ == param && named@ == code),
{
}

/// An attempt that the shutdown ended is on record as aborted for it, and otherwise as
/// it was.
pub proof fn shutdowns_end_attempts(record: AttemptRecordModel, key: Seq<char>)
    ensures
        ({
            let ended = shutdown_record(record);
            &&& ended.status is Aborted
            &&& ended.abort_reason == Some("server_shutdown"@)
            &&& ended.retry_reason is None
            &&& ended.attempt_id == record.attempt_id
            &&& ended.request_id == record.request_id
            &&& ended.attempt_number == record.attempt_number
            &&& ended.started_at_unix_ms == record.started_at_unix_ms
            &&& ended.finished_at_unix_ms == record.finished_at_unix_ms
            &&& ended.http_status == record.http_status
            &&& ended.error_reason == record.error_reason
            &&& ended.request_metadata == record.request_metadata
            &&& ended.response_metadata["abort_reason"@] == "server_shutdown"@
            &&& key != "abort_reason"@ && record.response_metadata.contains_key(key)
                ==> ended.response_metadata[key] == record.response_metadata[key]
        }),
        unauthorized_bindings().contains_key("virtual_key_resolution"@),
        unauthorized_bindings()["virtual_key_resolution"@] == "fail_closed"@,
{
}

/// What is recorded of a spent budget says whose it is, of which day, and how far it is
/// spent.
pub proof fn spent_budgets_are_recorded(
    profile: Seq<char>,
    date: Seq<char>,
    count: u64,
    limit: u64,
)
    ensures
        ({
            let told = budget_bindings(profile, date, count, limit);
            &&& told.contains_key("caller_profile"@) && told["caller_profile"@] == profile
            &&& told.contains_key("budget_date"@) && told["budget_date"@] == date
            &&& told.contains_key("budget_count"@) && told["budget_count"@] == decimal(count as nat)
            &&& told.contains_key("budget_limit"@) && told["budget_limit"@] == decimal(limit as nat)
            &&& told.contains_key("budget_outcome"@) && told["budget_outcome"@] == "limit_exceeded"@
        }),
{
    reveal_strlit("caller_profile");
    reveal_strlit("budget_date");
    reveal_strlit("budget_count");
    reveal_strlit("budget_limit");
    reveal_strlit("budget_outcome");
    assert("caller_profile"@.len() == 14);
    assert("budget_date"@.len() == 11);
    assert("budget_count"@.len() == 12);
    assert("budget_limit"@.len() == 12);
    assert("budget_outcome"@.len() == 14);
    assert("caller_profile"@[0] != "budget_outcome"@[0]);
    assert("budget_count"@[7] != "budget_limit"@[7]);
}

/// Each error has a type of its own.
pub proof fn errors_have_their_types(kind: ErrorKind)
    ensures
        kind is RequestBody ==> kind.type_text() == "request_body_error"@,
        kind is ConfigSnapshot ==> kind.type_text() == "config_snapshot_failed"@,
        kind is InvalidUpstreamUrl ==> kind.type_text() == "invalid_upstream_url"@,
        kind is InvalidMethod ==> kind.type_text() == "invalid_method"@,
        kind is ListenerUpstreamDenied ==> kind.type_text() == "listener_upstream_not_allowed"@,
        kind is Shutdown ==> kind.type_text() == "proxy_shutting_down"@,
        kind is UpstreamUnavailable ==> kind.type_text() == "upstream_unavailable"@,
        kind is VirtualKeyUnauthorized ==> kind.type_text() == "virtual_key_unauthorized"@,
        kind is BudgetExceeded ==> kind.type_text() == "budget_exhausted"@,
        kind is BudgetStoreFailure ==> kind.type_text() == "budget_store_failed"@,
        kind is GuardBlocked ==> kind.type_text() == "guard_blocked"@,
        kind is ContextBudgetExceeded ==> kind.type_text() == "invalid_request_error"@,
        kind is UpstreamTransport ==> kind.type_text() == "upstream_transport_error"@,
        kind is UpstreamBody ==> kind.type_text() == "upstream_body_error"@,
        kind is Shutdown ==> kind.message_text() == "proxy is shutting down"@,
        kind is VirtualKeyUnauthorized ==> kind.message_text() == "virtual key is required or not recognized"@,
{
}

/// An error says what happened and to what.
pub proof fn errors_say_what_happened(kind: ErrorKind)
    ensures
        kind matches ErrorKind::RequestBody { reason } ==> kind.message_text()
            == "failed to read request body within proxy limit: "@ + reason@,
        kind matches ErrorKind::ConfigSnapshot { reason } ==> kind.message_text()
            == "failed to read current config: "@ + reason@,
        kind matches ErrorKind::InvalidUpstreamUrl { display_url, reason } ==> kind.message_text()
            == "invalid upstream base URL "@ + display_url@ + ": "@ + reason@,
        kind matches ErrorKind::InvalidRequestPath(error) ==> kind.message_text()
            == error.message_text(),
        kind matches ErrorKind::InvalidMethod { reason } ==> kind.message_text()
            == "invalid HTTP method: "@ + reason@,
        kind matches ErrorKind::Admission { failure } ==> kind.message_text()
            == failure.message_text(),
        kind matches ErrorKind::GuardBlocked { reason } ==> kind.message_text()
            == "guard workflow blocked request: "@ + reason@,
        kind matches ErrorKind::BudgetExceeded { profile, date, current_count, limit }
            ==> kind.message_text() == "daily request budget exceeded for profile "@ + profile@
            + ": count="@ + decimal(current_count as nat) + " limit="@ + decimal(limit as nat)
            + " date="@ + date@,
        kind matches ErrorKind::BudgetStoreFailure { reason } ==> kind.message_text()
            == "budget store failed: "@ + reason@,
        kind matches ErrorKind::UpstreamUnavailable { profile, waited_ms } ==> kind.message_text()
            == "no healthy upstream endpoint for profile "@ + profile@ + " after "@ + decimal(
            waited_ms as nat,
        ) + "ms"@,
        kind matches ErrorKind::UpstreamTransport { failure } ==> kind.message_text()
            == "upstream request failed: "@ + failure.label(),
        kind matches ErrorKind::UpstreamBody { reason } ==> kind.message_text()
            == "failed to read upstream response body within proxy limit: "@ + reason@,
        kind matches ErrorKind::ContextBudgetExceeded { message, param, code }
            ==> kind.message_text() == message@,
{
}

} // verus!
