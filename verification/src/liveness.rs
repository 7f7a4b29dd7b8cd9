//! How a client is kept waiting, and what is recorded of it.

use crate::metadata::{Bindings, Metadata};
use crate::records::DownstreamMode;
use crate::repeat_inputs::{observed, RepeatInputCache, RepeatInputObservation};
use crate::text::{bool_chars, clone_opt, decimal, opt_chars};
use vstd::prelude::*;

verus! {

/// How a client is told that its request is alive.
#[derive(Clone, Copy, Debug, PartialEq, Eq, Structural)]
pub enum ShieldedLivenessMode {
    Sse,
    JsonWhitespace,
    Disabled,
}

impl ShieldedLivenessMode {
    /// The label of a mode.
    pub open spec fn label(self) -> Seq<char> {
        match self {
            ShieldedLivenessMode::Sse => "sse"@,
            ShieldedLivenessMode::JsonWhitespace => "json-whitespace"@,
            ShieldedLivenessMode::Disabled => "disabled"@,
        }
    }

    /// The label of a mode.
    pub fn as_str(self) -> (label: &'static str)
        ensures
            label@ == self.label(),
    {
        match self {
            ShieldedLivenessMode::Sse => "sse",
            ShieldedLivenessMode::JsonWhitespace => "json-whitespace",
            ShieldedLivenessMode::Disabled => "disabled",
        }
    }

    /// How the client is answered in a mode.
    pub fn downstream_mode(self) -> (mode: DownstreamMode)
        ensures
            mode == if self is Sse {
                DownstreamMode::Streaming
            } else {
                DownstreamMode::NonStreamJson
            },
    {
        match self {
            ShieldedLivenessMode::Sse => DownstreamMode::Streaming,
            _ => DownstreamMode::NonStreamJson,
        }
    }
}

/// How heartbeats are configured.
#[derive(Clone, Copy, Debug, PartialEq, Eq, Structural)]
pub enum HeartbeatMode {
    Disabled,
    Sse,
    JsonWhitespace,
}

/// How a chat request is handled.
#[derive(Clone, Copy, Debug, PartialEq, Eq, Structural)]
pub enum ShieldedChatKind {
    NonStream,
    Stream,
    Generic,
}

/// How a client is kept waiting for one request.
pub struct ShieldedLivenessSelection {
    pub mode: ShieldedLivenessMode,
    pub configured_mode: ShieldedLivenessMode,
    pub heartbeat_interval_secs: u64,
    pub input_fingerprint: Option<String>,
    pub repeat_observation: RepeatInputObservation,
    pub repeat_window_secs: u64,
    pub repeat_max_inputs: u32,
}

impl Clone for ShieldedLivenessSelection {
    fn clone(&self) -> (copy: ShieldedLivenessSelection)
        ensures
            copy == *self,
    {
        ShieldedLivenessSelection {
            mode: self.mode,
            configured_mode: self.configured_mode,
            heartbeat_interval_secs: self.heartbeat_interval_secs,
            input_fingerprint: clone_opt(&self.input_fingerprint),
            repeat_observation: self.repeat_observation,
            repeat_window_secs: self.repeat_window_secs,
            repeat_max_inputs: self.repeat_max_inputs,
        }
    }
}

/// The mode of a request. A stream gets event-stream framing. Any other request
/// needs JSON framing: white space where that is configured, or where event
/// streams are and the input has come too often; nothing otherwise.
pub open spec fn liveness_mode(
    kind: ShieldedChatKind,
    heartbeat: HeartbeatMode,
    repeated: bool,
) -> ShieldedLivenessMode {
    match kind {
        ShieldedChatKind::Stream => ShieldedLivenessMode::Sse,
        _ => match heartbeat {
            HeartbeatMode::JsonWhitespace => ShieldedLivenessMode::JsonWhitespace,
            HeartbeatMode::Sse => if repeated {
                ShieldedLivenessMode::JsonWhitespace
            } else {
                ShieldedLivenessMode::Disabled
            },
            HeartbeatMode::Disabled => ShieldedLivenessMode::Disabled,
        },
    }
}

/// The mode of a request.
pub fn select_liveness_mode(kind: ShieldedChatKind, heartbeat: HeartbeatMode, repeated: bool) -> (
    mode: ShieldedLivenessMode)
    ensures
        mode == liveness_mode(kind, heartbeat, repeated),
{
    match kind {
        ShieldedChatKind::Stream => ShieldedLivenessMode::Sse,
        ShieldedChatKind::NonStream | ShieldedChatKind::Generic => match heartbeat {
            HeartbeatMode::JsonWhitespace => ShieldedLivenessMode::JsonWhitespace,
            HeartbeatMode::Sse => {
                if repeated {
                    ShieldedLivenessMode::JsonWhitespace
                } else {
                    ShieldedLivenessMode::Disabled
                }
            },
            HeartbeatMode::Disabled => ShieldedLivenessMode::Disabled,
        },
    }
}

/// The settings that decide how a client is kept waiting.
#[derive(Clone, Copy, Debug, PartialEq, Eq, Structural)]
pub struct LivenessSettings {
    pub heartbeat_mode: HeartbeatMode,
    pub heartbeat_interval_secs: u64,
    pub loop_guard_disabled: bool,
    pub normalized_input_window_secs: u64,
    pub max_repeated_inputs: u32,
}

/// The liveness mode that the configuration names.
pub open spec fn configured_liveness(heartbeat: HeartbeatMode) -> ShieldedLivenessMode {
    match heartbeat {
        HeartbeatMode::Disabled => ShieldedLivenessMode::Disabled,
        HeartbeatMode::Sse => ShieldedLivenessMode::Sse,
        HeartbeatMode::JsonWhitespace => ShieldedLivenessMode::JsonWhitespace,
    }
}

/// Decides how the client of a chat request is kept waiting. A chat request with
/// a fingerprint is noted as an input, unless the loop guard is off.
pub fn select_shielded_liveness(
    repeat_inputs: &mut RepeatInputCache,
    settings: LivenessSettings,
    chat_fingerprint: Option<String>,
    kind: ShieldedChatKind,
    now_unix_ms: u64,
) -> (selection: ShieldedLivenessSelection)
    requires
        old(repeat_inputs).wf(),
    ensures
        final(repeat_inputs).wf(),
        selection.mode == liveness_mode(
            kind,
            settings.heartbeat_mode,
            selection.repeat_observation.repeated,
        ),
        selection.configured_mode == configured_liveness(settings.heartbeat_mode),
        selection.heartbeat_interval_secs == settings.heartbeat_interval_secs,
        selection.repeat_window_secs == settings.normalized_input_window_secs,
        selection.repeat_max_inputs == settings.max_repeated_inputs,
        selection.input_fingerprint == if kind is Generic {
            None
        } else {
            chat_fingerprint
        },
        (kind is Generic || chat_fingerprint is None || settings.loop_guard_disabled) ==> {
            &&& selection.repeat_observation == (RepeatInputObservation {
                repeated: false,
                prior_count: 0,
            })
            &&& *final(repeat_inputs) == *old(repeat_inputs)
        },
        !(kind is Generic || chat_fingerprint is None || settings.loop_guard_disabled)
            ==> observed(
            old(repeat_inputs)@,
            chat_fingerprint->Some_0@,
            now_unix_ms,
            settings.normalized_input_window_secs,
            settings.max_repeated_inputs,
            selection.repeat_observation,
            final(repeat_inputs)@,
        ),
{
    let input_fingerprint = match kind {
        ShieldedChatKind::Generic => None,
        _ => chat_fingerprint,
    };
    let mut repeat_observation = RepeatInputObservation { repeated: false, prior_count: 0 };
    match &input_fingerprint {
        Some(fingerprint) => {
            if !settings.loop_guard_disabled {
                repeat_observation = repeat_inputs.observe(
                    fingerprint.as_str(),
                    now_unix_ms,
                    settings.normalized_input_window_secs,
                    settings.max_repeated_inputs,
                );
            }
        },
        None => {},
    }
    let configured_mode = match settings.heartbeat_mode {
        HeartbeatMode::Disabled => ShieldedLivenessMode::Disabled,
        HeartbeatMode::Sse => ShieldedLivenessMode::Sse,
        HeartbeatMode::JsonWhitespace => ShieldedLivenessMode::JsonWhitespace,
    };
    ShieldedLivenessSelection {
        mode: select_liveness_mode(kind, settings.heartbeat_mode, repeat_observation.repeated),
        configured_mode,
        heartbeat_interval_secs: settings.heartbeat_interval_secs,
        input_fingerprint,
        repeat_observation,
        repeat_window_secs: settings.normalized_input_window_secs,
        repeat_max_inputs: settings.max_repeated_inputs,
    }
}

// ---------------------------------------------------------------------------
// Metadata
// ---------------------------------------------------------------------------

/// What is recorded of the repeated inputs of a request.
pub open spec fn with_repeat_bindings(
    bindings: Bindings,
    liveness: ShieldedLivenessSelection,
) -> Bindings {
    bindings.insert(
        "heartbeat_interval_secs"@,
        decimal(liveness.heartbeat_interval_secs as nat),
    ).insert("repeat_input_window_secs"@, decimal(liveness.repeat_window_secs as nat)).insert(
        "repeat_input_max_repeated_inputs"@,
        decimal(liveness.repeat_max_inputs as nat),
    ).insert(
        "input_fingerprint_present"@,
        bool_chars(liveness.input_fingerprint is Some),
    ).insert("repeat_input_matched"@, bool_chars(liveness.repeat_observation.repeated)).insert(
        "repeat_input_prior_count"@,
        decimal(liveness.repeat_observation.prior_count as nat),
    )
}

fn add_repeat_metadata(metadata: &mut Metadata, liveness: &ShieldedLivenessSelection)
    ensures
        final(metadata)@ == with_repeat_bindings(old(metadata)@, *liveness),
{
    metadata.set_number("heartbeat_interval_secs", liveness.heartbeat_interval_secs);
    metadata.set_number("repeat_input_window_secs", liveness.repeat_window_secs);
    metadata.set_number("repeat_input_max_repeated_inputs", liveness.repeat_max_inputs as u64);
    metadata.set_bool("input_fingerprint_present", liveness.input_fingerprint.is_some());
    metadata.set_bool("repeat_input_matched", liveness.repeat_observation.repeated);
    metadata.set_number(
        "repeat_input_prior_count",
        liveness.repeat_observation.prior_count as u64,
    );
}

/// What is recorded of how a client is kept waiting.
pub open spec fn liveness_bindings(liveness: ShieldedLivenessSelection) -> Bindings {
    with_repeat_bindings(
        Bindings::empty().insert("downstream_liveness_mode"@, liveness.mode.label()),
        liveness,
    )
}

/// Records how a client is kept waiting.
pub fn shielded_liveness_metadata(liveness: &ShieldedLivenessSelection) -> (metadata: Metadata)
    ensures
        metadata@ == liveness_bindings(*liveness),
{
    let mut metadata = Metadata::new();
    metadata.set("downstream_liveness_mode", liveness.mode.as_str());
    add_repeat_metadata(&mut metadata, liveness);
    metadata
}

/// The bindings with the content type of the upstream, where it has one.
pub open spec fn with_content_type(bindings: Bindings, content_type: Option<Seq<char>>) -> Bindings {
    match content_type {
        Some(content_type) => bindings.insert(
            "upstream_response_header_content-type"@,
            content_type,
        ),
        None => bindings,
    }
}

fn add_content_type(metadata: &mut Metadata, content_type: Option<String>)
    ensures
        final(metadata)@ == with_content_type(old(metadata)@, opt_chars(content_type)),
{
    match content_type {
        Some(content_type) => {
            metadata.insert("upstream_response_header_content-type", content_type);
        },
        None => {},
    }
}

/// What is recorded of the response to a client that is kept waiting.
pub open spec fn liveness_response_bindings(
    liveness: ShieldedLivenessSelection,
    content_type: Option<Seq<char>>,
) -> Bindings {
    with_content_type(
        liveness_bindings(liveness).insert(
            "shielded_downstream_streaming"@,
            bool_chars(liveness.mode is Sse),
        ),
        content_type,
    )
}

/// Records the response to a client that is kept waiting.
pub fn shielded_liveness_response_metadata(
    liveness: &ShieldedLivenessSelection,
    upstream_content_type: Option<String>,
) -> (metadata: Metadata)
    ensures
        metadata@ == liveness_response_bindings(*liveness, opt_chars(upstream_content_type)),
{
    let mut metadata = shielded_liveness_metadata(liveness);
    metadata.set_bool(
        "shielded_downstream_streaming",
        liveness.mode == ShieldedLivenessMode::Sse,
    );
    add_content_type(&mut metadata, upstream_content_type);
    metadata
}

/// Records a chat request that is shielded.
pub fn add_shielded_chat_request_metadata(metadata: &mut Metadata)
    ensures
        final(metadata)@ == with_shielded_chat(old(metadata)@),
{
    metadata.set("shielded_streaming", "true");
    metadata.set("upstream_stream_forced", "true");
    metadata.set("policy_transform_applied", "true");
}

/// The bindings of a chat request that is shielded.
pub open spec fn with_shielded_chat(bindings: Bindings) -> Bindings {
    bindings.insert("shielded_streaming"@, "true"@).insert(
        "upstream_stream_forced"@,
        "true"@,
    ).insert("policy_transform_applied"@, "true"@)
}

/// Records how the client of a request is kept waiting.
pub fn add_shielded_liveness_request_metadata(
    metadata: &mut Metadata,
    liveness: &ShieldedLivenessSelection,
)
    ensures
        final(metadata)@ == old(metadata)@.union_prefer_right(liveness_bindings(*liveness)),
{
    let added = shielded_liveness_metadata(liveness);
    metadata.extend(&added);
}

/// The bindings of a request: that it is shielded and how its client is kept
/// waiting, where it is; the thinking policy, where one was applied.
pub open spec fn with_shielded_request(
    bindings: Bindings,
    shielded_chat: bool,
    thinking_policy_applied: bool,
    liveness: ShieldedLivenessSelection,
    thinking: Bindings,
) -> Bindings {
    let shielded = if shielded_chat {
        with_shielded_chat(bindings).union_prefer_right(liveness_bindings(liveness))
    } else {
        bindings
    };
    if thinking_policy_applied {
        shielded.insert("policy_transform_applied"@, "true"@).union_prefer_right(thinking)
    } else {
        shielded
    }
}

/// Records how a request is shielded.
pub fn add_shielded_request_metadata(
    metadata: &mut Metadata,
    shielded_chat: bool,
    thinking_policy_applied: bool,
    liveness: &ShieldedLivenessSelection,
    thinking_metadata: &Metadata,
)
    ensures
        final(metadata)@ == with_shielded_request(
            old(metadata)@,
            shielded_chat,
            thinking_policy_applied,
            *liveness,
            thinking_metadata@,
        ),
{
    if shielded_chat {
        add_shielded_chat_request_metadata(metadata);
        add_shielded_liveness_request_metadata(metadata, liveness);
    }
    if thinking_policy_applied {
        metadata.set("policy_transform_applied", "true");
        metadata.extend(thinking_metadata);
    }
}

/// A chat that is streamed is kept alive by events; one that is not is kept alive by
/// white space where that is configured, or where events are and the input repeats.
pub proof fn chats_are_kept_alive_as_configured(kind: ShieldedChatKind, repeated: bool)
    ensures
        kind is Stream ==> liveness_mode(kind, HeartbeatMode::Sse, repeated) is Sse
            && liveness_mode(kind, HeartbeatMode::JsonWhitespace, repeated) is Sse
            && liveness_mode(kind, HeartbeatMode::Disabled, repeated) is Sse,
        !(kind is Stream) ==> {
            &&& liveness_mode(kind, HeartbeatMode::JsonWhitespace, repeated) is JsonWhitespace
            &&& liveness_mode(kind, HeartbeatMode::Sse, true) is JsonWhitespace
            &&& liveness_mode(kind, HeartbeatMode::Sse, false) is Disabled
            &&& liveness_mode(kind, HeartbeatMode::Disabled, repeated) is Disabled
        },
        configured_liveness(HeartbeatMode::Disabled) is Disabled,
        configured_liveness(HeartbeatMode::Sse) is Sse,
        configured_liveness(HeartbeatMode::JsonWhitespace) is JsonWhitespace,
{
}

/// What is recorded of the liveness of a request is what was selected for it.
pub proof fn liveness_is_recorded_as_selected(liveness: ShieldedLivenessSelection)
    ensures
        ({
            let told = liveness_bindings(liveness);
            let says = |key: Seq<char>, text: Seq<char>| told.contains_key(key) && told[key] == text;
            &&& says("downstream_liveness_mode"@, liveness.mode.label())
            &&& says(
                "heartbeat_interval_secs"@,
                decimal(liveness.heartbeat_interval_secs as nat),
            )
            &&& says("repeat_input_window_secs"@, decimal(liveness.repeat_window_secs as nat))
            &&& says(
                "repeat_input_max_repeated_inputs"@,
                decimal(liveness.repeat_max_inputs as nat),
            )
            &&& says(
                "repeat_input_matched"@,
                if liveness.repeat_observation.repeated {
                    "true"@
                } else {
                    "false"@
                },
            )
            &&& says(
                "repeat_input_prior_count"@,
                decimal(liveness.repeat_observation.prior_count as nat),
            )
        }),
{
    reveal_strlit("downstream_liveness_mode");
    reveal_strlit("heartbeat_interval_secs");
    reveal_strlit("repeat_input_window_secs");
    reveal_strlit("repeat_input_max_repeated_inputs");
    reveal_strlit("input_fingerprint_present");
    reveal_strlit("repeat_input_matched");
    reveal_strlit("repeat_input_prior_count");
    assert("downstream_liveness_mode"@.len() == 24);
    assert("heartbeat_interval_secs"@.len() == 23);
    assert("repeat_input_window_secs"@.len() == 24);
    assert("repeat_input_max_repeated_inputs"@.len() == 32);
    assert("input_fingerprint_present"@.len() == 25);
    assert("repeat_input_matched"@.len() == 20);
    assert("repeat_input_prior_count"@.len() == 24);
    assert("downstream_liveness_mode"@[0] == 'd');
    assert("repeat_input_window_secs"@[13] == 'w');
    assert("repeat_input_prior_count"@[13] == 'p');
    assert("repeat_input_prior_count"@[0] == 'r');
    assert("repeat_input_window_secs"@[0] == 'r');
}

/// A shielded chat is recorded as one, with its liveness; a request whose thinking was
/// changed as changed, with how; any other request is recorded as it was.
pub proof fn shielded_requests_are_recorded(
    bindings: Bindings,
    liveness: ShieldedLivenessSelection,
    thinking: Bindings,
    key: Seq<char>,
)
    ensures
        with_shielded_request(bindings, false, false, liveness, thinking) == bindings,
        ({
            let told = with_shielded_request(bindings, true, false, liveness, thinking);
            &&& liveness_bindings(liveness).contains_key(key) ==> told[key] == liveness_bindings(
                liveness,
            )[key]
            &&& told.contains_key("shielded_streaming"@)
            &&& told.contains_key("policy_transform_applied"@)
        }),
        ({
            let told = with_shielded_request(bindings, false, true, liveness, thinking);
            &&& thinking.contains_key(key) ==> told.contains_key(key) && told[key] == thinking[key]
            &&& told.contains_key("policy_transform_applied"@)
            &&& !thinking.contains_key("policy_transform_applied"@)
                ==> told["policy_transform_applied"@] == "true"@
            &&& !thinking.contains_key(key) && key != "policy_transform_applied"@
                && bindings.contains_key(key) ==> told[key] == bindings[key]
        }),
{
}

/// What is recorded of repeated inputs says how they were looked for and how many there
/// were.
pub proof fn repeats_are_recorded(
    bindings: Bindings,
    liveness: ShieldedLivenessSelection,
)
    ensures
        ({
            let told = with_repeat_bindings(bindings, liveness);
            &&& told.contains_key("heartbeat_interval_secs"@) && told["heartbeat_interval_secs"@] == decimal(liveness.heartbeat_interval_secs as nat)
            &&& told.contains_key("repeat_input_window_secs"@) && told["repeat_input_window_secs"@] == decimal(liveness.repeat_window_secs as nat)
            &&& told.contains_key("repeat_input_max_repeated_inputs"@) && told["repeat_input_max_repeated_inputs"@] == decimal(liveness.repeat_max_inputs as nat)
            &&& told.contains_key("input_fingerprint_present"@) && told["input_fingerprint_present"@] == if liveness.input_fingerprint is Some {
                "true"@
            } else {
                "false"@
            }
            &&& told.contains_key("repeat_input_matched"@) && told["repeat_input_matched"@] == if liveness.repeat_observation.repeated {
                "true"@
            } else {
                "false"@
            }
            &&& told.contains_key("repeat_input_prior_count"@) && told["repeat_input_prior_count"@] == decimal(liveness.repeat_observation.prior_count as nat)
        }),
{
    reveal_strlit("heartbeat_interval_secs");
    reveal_strlit("repeat_input_window_secs");
    reveal_strlit("repeat_input_max_repeated_inputs");
    reveal_strlit("input_fingerprint_present");
    reveal_strlit("repeat_input_matched");
    reveal_strlit("repeat_input_prior_count");
    assert("heartbeat_interval_secs"@.len() == 23);
    assert("repeat_input_window_secs"@.len() == 24);
    assert("repeat_input_max_repeated_inputs"@.len() == 32);
    assert("input_fingerprint_present"@.len() == 25);
    assert("repeat_input_matched"@.len() == 20);
    assert("repeat_input_prior_count"@.len() == 24);
    assert("repeat_input_window_secs"@[13] != "repeat_input_prior_count"@[13]);
}

/// A shielded chat is on record as streamed, whatever it asked for.
pub proof fn shielded_chats_are_recorded(
    bindings: Bindings,
)
    ensures
        ({
            let told = with_shielded_chat(bindings);
            &&& told.contains_key("shielded_streaming"@) && told["shielded_streaming"@] == "true"@
            &&& told.contains_key("upstream_stream_forced"@) && told["upstream_stream_forced"@] == "true"@
            &&& told.contains_key("policy_transform_applied"@) && told["policy_transform_applied"@] == "true"@
        }),
{
    reveal_strlit("shielded_streaming");
    reveal_strlit("upstream_stream_forced");
    reveal_strlit("policy_transform_applied");
    assert("shielded_streaming"@.len() == 18);
    assert("upstream_stream_forced"@.len() == 22);
    assert("policy_transform_applied"@.len() == 24);
}

/// What is recorded of a response that is kept alive says whether it is streamed and of
/// which type the upstream's was.
pub proof fn kept_responses_are_recorded(
    liveness: ShieldedLivenessSelection,
    content_type: Seq<char>,
    bindings: Bindings,
)
    ensures
        with_content_type(bindings, None) == bindings,
        with_content_type(bindings, Some(content_type))["upstream_response_header_content-type"@]
            == content_type,
        liveness_response_bindings(liveness, None)["shielded_downstream_streaming"@] == if liveness.mode
            is Sse {
            "true"@
        } else {
            "false"@
        },
        liveness_response_bindings(
            liveness,
            Some(content_type),
        )["upstream_response_header_content-type"@] == content_type,
{
}

/// Each way to keep a request alive has a name of its own.
pub proof fn modes_have_their_names(mode: ShieldedLivenessMode)
    ensures
        mode is Sse ==> mode.label() == "sse"@,
        mode is JsonWhitespace ==> mode.label() == "json-whitespace"@,
        mode is Disabled ==> mode.label() == "disabled"@,
{
}

} // verus!
