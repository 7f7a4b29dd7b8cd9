//! Honest liveness metadata for responses that are held until they are known to
//! be right.

use crate::liveness::{
    with_content_type, with_repeat_bindings, ShieldedLivenessMode, ShieldedLivenessSelection,
};
use crate::metadata::{Bindings, Metadata};
use crate::text::{bool_chars, opt_chars};
use vstd::prelude::*;

verus! {

/// The effective mode of a held response.
pub const EFFECTIVE_MODE: &'static str = "held";

/// What is recorded of a held response: the effective mode, the configured mode
/// and the framing.
pub open spec fn held_bindings(liveness: ShieldedLivenessSelection) -> Bindings {
    with_repeat_bindings(
        Bindings::empty().insert("downstream_liveness_mode"@, EFFECTIVE_MODE@).insert(
            "downstream_liveness_configured_mode"@,
            liveness.configured_mode.label(),
        ).insert("downstream_liveness_framing_mode"@, liveness.mode.label()).insert(
            "downstream_liveness_effective_mode"@,
            EFFECTIVE_MODE@,
        ),
        liveness,
    )
}

/// Records how a held response is framed.
pub fn metadata(liveness: &ShieldedLivenessSelection) -> (held: Metadata)
    ensures
        held@ == held_bindings(*liveness),
{
    let mut held = Metadata::new();
    held.set("downstream_liveness_mode", EFFECTIVE_MODE);
    held.set("downstream_liveness_configured_mode", liveness.configured_mode.as_str());
    held.set("downstream_liveness_framing_mode", liveness.mode.as_str());
    held.set("downstream_liveness_effective_mode", EFFECTIVE_MODE);
    held.set_number("heartbeat_interval_secs", liveness.heartbeat_interval_secs);
    held.set_number("repeat_input_window_secs", liveness.repeat_window_secs);
    held.set_number("repeat_input_max_repeated_inputs", liveness.repeat_max_inputs as u64);
    held.set_bool("input_fingerprint_present", liveness.input_fingerprint.is_some());
    held.set_bool("repeat_input_matched", liveness.repeat_observation.repeated);
    held.set_number("repeat_input_prior_count", liveness.repeat_observation.prior_count as u64);
    held
}

/// Records on a request how its response is held.
pub fn add_request_metadata(request_metadata: &mut Metadata, liveness: &ShieldedLivenessSelection)
    ensures
        final(request_metadata)@ == old(request_metadata)@.union_prefer_right(
            held_bindings(*liveness),
        ),
{
    let held = metadata(liveness);
    request_metadata.extend(&held);
}

/// Records a held response: no heartbeat was sent for it.
pub fn response_metadata(
    liveness: &ShieldedLivenessSelection,
    upstream_content_type: Option<String>,
) -> (held: Metadata)
    ensures
        held@ == with_content_type(
            held_bindings(*liveness).insert("downstream_heartbeat_emitted_count"@, "0"@).insert(
                "shielded_downstream_streaming"@,
                bool_chars(liveness.mode is Sse),
            ),
            opt_chars(upstream_content_type),
        ),
{
    let mut held = metadata(liveness);
    held.set("downstream_heartbeat_emitted_count", "0");
    held.set_bool("shielded_downstream_streaming", liveness.mode == ShieldedLivenessMode::Sse);
    match upstream_content_type {
        Some(content_type) => {
            held.insert("upstream_response_header_content-type", content_type);
        },
        None => {},
    }
    held
}

/// Where a request is held, its record says so, and how it would have been kept alive.
pub proof fn held_requests_are_recorded(liveness: ShieldedLivenessSelection)
    ensures
        ({
            let told = held_bindings(liveness);
            let says = |key: Seq<char>, text: Seq<char>| told.contains_key(key) && told[key] == text;
            &&& says("downstream_liveness_mode"@, "held"@)
            &&& says("downstream_liveness_effective_mode"@, "held"@)
            &&& says("downstream_liveness_configured_mode"@, liveness.configured_mode.label())
            &&& says("downstream_liveness_framing_mode"@, liveness.mode.label())
        }),
{
    reveal_strlit("downstream_liveness_mode");
    reveal_strlit("downstream_liveness_effective_mode");
    reveal_strlit("downstream_liveness_configured_mode");
    reveal_strlit("downstream_liveness_framing_mode");
    reveal_strlit("heartbeat_interval_secs");
    reveal_strlit("repeat_input_window_secs");
    reveal_strlit("repeat_input_max_repeated_inputs");
    reveal_strlit("input_fingerprint_present");
    reveal_strlit("repeat_input_matched");
    reveal_strlit("repeat_input_prior_count");
    assert("downstream_liveness_mode"@.len() == 24);
    assert("downstream_liveness_effective_mode"@.len() == 34);
    assert("downstream_liveness_configured_mode"@.len() == 35);
    assert("downstream_liveness_framing_mode"@.len() == 32);
    assert("heartbeat_interval_secs"@.len() == 23);
    assert("repeat_input_window_secs"@.len() == 24);
    assert("repeat_input_max_repeated_inputs"@.len() == 32);
    assert("input_fingerprint_present"@.len() == 25);
    assert("repeat_input_matched"@.len() == 20);
    assert("repeat_input_prior_count"@.len() == 24);
    assert("downstream_liveness_mode"@[0] != "repeat_input_window_secs"@[0]);
    assert("downstream_liveness_mode"@[0] != "repeat_input_prior_count"@[0]);
    assert("downstream_liveness_framing_mode"@[0] != "repeat_input_max_repeated_inputs"@[0]);
    assert("repeat_input_window_secs"@[13] != "repeat_input_prior_count"@[13]);
}

} // verus!
