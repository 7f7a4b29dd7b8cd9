//! Decision logic of an OpenAI-compatible guard proxy.

pub mod adapters;
pub mod admin;
pub mod admission;
pub mod assoc;
pub mod attempt_flow;
pub mod attempts;
pub mod bodies;
pub mod callers;
pub mod clock;
pub mod context_budget;
pub mod deepinfra_rerank;
pub mod effective_liveness;
pub mod error_bodies;
pub mod errors;
pub mod evidence;
pub mod failover;
pub mod failures;
pub mod fingerprint;
pub mod forwarding;
pub mod generic_recovery;
pub mod handling;
pub mod headers;
pub mod json;
pub mod lifecycle;
pub mod liveness;
pub mod message_metadata;
pub mod metadata;
pub mod metrics;
pub mod models;
pub mod observations;
pub mod overrides;
pub mod path;
pub mod preparation;
pub mod profiles;
pub mod records;
pub mod recovery;
pub mod repeat_inputs;
pub mod request_flow;
pub mod responses;
pub mod retry;
pub mod shadow;
pub mod shadow_runs;
pub mod shielded_run;
pub mod sse_progress;
pub mod text;
pub mod text_map;
pub mod thinking;
pub mod token_usage;
pub mod uri;
pub mod watchdog;
pub mod workflows;
