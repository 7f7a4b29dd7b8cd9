//! Sampling parameters that a profile sets in place of those of a request.

use crate::errors::{bare_error, is_invalid_request, ProxyError, ProxyErrorModel};
use crate::forwarding::ShieldedChatPlan;
use crate::json::{
    parse_json, parsed_json, render_json, rendered_json, Fraction, Json, JsonModel, JsonObject,
};
use crate::metadata::{Bindings, Metadata};
use crate::text::joined;
use crate::workflows::{is_chat_completions_request, is_chat_request};
use vstd::prelude::*;
use vstd::string::*;
use vstd::utf8::encode_utf8;

verus! {

// ---------------------------------------------------------------------------
// Thinking controls that contradict each other
// ---------------------------------------------------------------------------

/// How a default for thinking is put into a request.
#[derive(Clone, Copy, Debug, PartialEq, Eq, Structural)]
pub enum DefaultInjectionSchema {
    VllmNative,
    Other,
}

/// Whether the native controls are in use: by the profile, or by a step of the
/// retry ladder that does not say otherwise.
pub open spec fn native_configured(
    profile: DefaultInjectionSchema,
    ladder: Seq<Option<DefaultInjectionSchema>>,
) -> bool {
    profile is VllmNative || exists|i: int|
        0 <= i < ladder.len() && #[trigger] ladder[i] == Some(DefaultInjectionSchema::VllmNative)
}

/// What is recorded of contradicting thinking controls.
pub open spec fn conflict_bindings() -> Bindings {
    Bindings::empty().insert("thinking_control_validation"@, "rejected_conflict"@).insert(
        "thinking_default_injection_schema"@,
        "vllm_native"@,
    )
}

/// Refuses a chat request whose thinking controls contradict each other, where
/// the native controls are in use. `conflicting` says whether they do.
pub fn validate_vllm_native_request_controls(
    profile: DefaultInjectionSchema,
    ladder: &Vec<Option<DefaultInjectionSchema>>,
    method: &str,
    path: &str,
    conflicting: bool,
) -> (checked: Result<(), ProxyError>)
    ensures
        match checked {
            Ok(_) => !(is_chat_request(method@, path@) && native_configured(profile, ladder@)
                && conflicting),
            Err(error) => {
                &&& is_chat_request(method@, path@) && native_configured(profile, ladder@)
                    && conflicting
                &&& is_invalid_request(
                    error.kind,
                    "positive thinking_token_budget cannot be combined with an explicit no-thinking marker"@,
                    "thinking_token_budget"@,
                    "conflicting_thinking_controls"@,
                )
                &&& error@ == (ProxyErrorModel {
                    request_metadata: Some(conflict_bindings()),
                    ..bare_error(error.kind)
                })
            },
        },
{
    let mut native = matches!(profile, DefaultInjectionSchema::VllmNative);
    let mut i: usize = 0;
    while i < ladder.len()
        invariant
            i <= ladder.len(),
            native == (profile is VllmNative || exists|j: int|
                0 <= j < i && #[trigger] ladder@[j] == Some(DefaultInjectionSchema::VllmNative)),
        decreases ladder.len() - i,
    {
        match ladder[i] {
            Some(DefaultInjectionSchema::VllmNative) => {
                native = true;
                assert(ladder@[i as int] == Some(DefaultInjectionSchema::VllmNative));
            },
            _ => {},
        }
        i += 1;
    }
    if !is_chat_completions_request(method, path) || !native || !conflicting {
        return Ok(());
    }
    let mut metadata = Metadata::new();
    metadata.set("thinking_control_validation", "rejected_conflict");
    metadata.set("thinking_default_injection_schema", "vllm_native");
    let mut error = ProxyError::invalid_request(
        "positive thinking_token_budget cannot be combined with an explicit no-thinking marker".to_owned(),
        "thinking_token_budget",
        "conflicting_thinking_controls",
    );
    error.request_metadata = Some(metadata);
    Err(error)
}

// ---------------------------------------------------------------------------
// Overrides
// ---------------------------------------------------------------------------

/// A fractional parameter that a profile may set.
pub enum FractionOverride {
    Unset,
    /// Set to something that no JSON number can say.
    Unsayable,
    Number(Fraction),
}

/// The parameters that a profile sets.
pub struct ParamOverrideConfig {
    pub enabled: bool,
    pub temperature: FractionOverride,
    pub top_p: FractionOverride,
    pub top_k: Option<u32>,
    pub max_tokens: Option<u32>,
    pub frequency_penalty: FractionOverride,
    pub presence_penalty: FractionOverride,
}

/// Whether any parameter is set.
pub open spec fn sets_fields(config: ParamOverrideConfig) -> bool {
    ||| !(config.temperature is Unset)
    ||| !(config.top_p is Unset)
    ||| config.top_k is Some
    ||| config.max_tokens is Some
    ||| !(config.frequency_penalty is Unset)
    ||| !(config.presence_penalty is Unset)
}

fn is_set(value: &FractionOverride) -> (set: bool)
    ensures
        set == !(value is Unset),
{
    match value {
        FractionOverride::Unset => false,
        _ => true,
    }
}

/// Whether any parameter is set.
pub fn param_override_has_fields(config: &ParamOverrideConfig) -> (has: bool)
    ensures
        has == sets_fields(*config),
{
    is_set(&config.temperature) || is_set(&config.top_p) || config.top_k.is_some()
        || config.max_tokens.is_some() || is_set(&config.frequency_penalty) || is_set(
        &config.presence_penalty,
    )
}

/// Whether a request gets the parameters of its profile.
pub fn param_override_applies(method: &str, path: &str, config: &ParamOverrideConfig) -> (applies:
    bool)
    ensures
        applies == (is_chat_request(method@, path@) && config.enabled && sets_fields(*config)),
{
    is_chat_completions_request(method, path) && config.enabled && param_override_has_fields(config)
}

/// An object with a fractional parameter.
pub open spec fn with_fraction(
    fields: Map<Seq<char>, JsonModel>,
    key: Seq<char>,
    value: FractionOverride,
) -> Map<Seq<char>, JsonModel> {
    match value {
        FractionOverride::Number(number) => fields.insert(key, JsonModel::Float(number@)),
        _ => fields,
    }
}

/// An object with the parameters of a profile.
pub open spec fn with_params(
    fields: Map<Seq<char>, JsonModel>,
    config: ParamOverrideConfig,
) -> Map<Seq<char>, JsonModel> {
    let top_p = with_fraction(
        with_fraction(fields, "temperature"@, config.temperature),
        "top_p"@,
        config.top_p,
    );
    let top_k = match config.top_k {
        Some(value) => top_p.insert("top_k"@, JsonModel::Unsigned(value as u64)),
        None => top_p,
    };
    with_fraction(
        with_fraction(top_k, "frequency_penalty"@, config.frequency_penalty),
        "presence_penalty"@,
        config.presence_penalty,
    )
}

/// Sets a fractional parameter, where it is a JSON number.
pub fn insert_f64_override(object: &mut JsonObject, field: &str, value: &FractionOverride)
    ensures
        final(object)@ == with_fraction(old(object)@, field@, *value),
{
    match value {
        FractionOverride::Number(number) => {
            object.insert(field, Json::Float(number.clone()));
        },
        _ => {},
    }
}

/// Sets a whole parameter, where it is set.
pub fn insert_u32_override(object: &mut JsonObject, field: &str, value: Option<u32>)
    ensures
        final(object)@ == match value {
            Some(value) => old(object)@.insert(field@, JsonModel::Unsigned(value as u64)),
            None => old(object)@,
        },
{
    match value {
        Some(value) => {
            object.insert(field, Json::Unsigned(value as u64));
        },
        None => {},
    }
}

/// Sets the parameters of a profile.
pub fn insert_param_override_fields(object: &mut JsonObject, config: &ParamOverrideConfig)
    ensures
        final(object)@ == with_params(old(object)@, *config),
{
    insert_f64_override(object, "temperature", &config.temperature);
    insert_f64_override(object, "top_p", &config.top_p);
    insert_u32_override(object, "top_k", config.top_k);
    insert_f64_override(object, "frequency_penalty", &config.frequency_penalty);
    insert_f64_override(object, "presence_penalty", &config.presence_penalty);
}

/// A request with the parameters of a profile, on the request itself and on the
/// parameters that it nests.
pub open spec fn overridden(
    fields: Map<Seq<char>, JsonModel>,
    config: ParamOverrideConfig,
) -> Map<Seq<char>, JsonModel> {
    let told = with_params(fields, config);
    if told.contains_key("parameters"@) && told["parameters"@] is Object {
        told.insert(
            "parameters"@,
            JsonModel::Object(with_params(told["parameters"@]->Object_0, config)),
        )
    } else {
        told
    }
}

/// Sets the parameters of a profile on a request and on the parameters that it
/// nests.
pub fn apply_param_override_object(object: JsonObject, config: &ParamOverrideConfig) -> (changed:
    Json)
    ensures
        changed@ == JsonModel::Object(overridden(object@, *config)),
{
    let mut object = object;
    insert_param_override_fields(&mut object, config);
    let told = object.into_json();
    let nested = match told.get("parameters") {
        Some(parameters) => JsonObject::of(parameters),
        None => None,
    };
    match nested {
        Some(parameters) => {
            let mut parameters = parameters;
            insert_param_override_fields(&mut parameters, config);
            match JsonObject::of(&told) {
                Some(outer) => {
                    let mut outer = outer;
                    outer.insert("parameters", parameters.into_json());
                    outer.into_json()
                },
                None => told,
            }
        },
        None => told,
    }
}

/// What becomes of a request body.
pub enum Overridden {
    /// It is no JSON, so that nothing can be set on it.
    Refused,
    /// It is accepted as it is.
    Unchanged,
    /// It is rewritten.
    Changed { body: Vec<u8> },
    /// It is rewritten, once its output was capped.
    ToCap { request: Json, max_tokens: u32 },
}

/// The bytes of a rewritten request.
pub open spec fn rewritten_bytes(request: JsonModel) -> Seq<u8> {
    encode_utf8(rendered_json(request))
}

/// What becomes of a request body that gets the parameters of a profile. A body
/// that is no object stays as it is, and one that is not JSON is refused.
pub open spec fn overrides_body(
    body: Seq<u8>,
    config: ParamOverrideConfig,
    result: Result<Overridden, ProxyError>,
) -> bool {
    if !config.enabled || !sets_fields(config) {
        result is Ok && result->Ok_0 is Unchanged
    } else {
        match parsed_json(body) {
            Err(error) => {
                &&& result is Err
                &&& result->Err_0.kind is RequestBody
                &&& result->Err_0.kind.message_text()
                    == "failed to read request body within proxy limit: "@ + (
                "request body is not JSON: "@ + error)
                &&& result->Err_0@ == bare_error(result->Err_0.kind)
            },
            Ok(JsonModel::Object(fields)) => {
                let told = JsonModel::Object(overridden(fields, config));
                match (result, config.max_tokens) {
                    (Ok(Overridden::Changed { body }), None) => body@ == rewritten_bytes(told),
                    (Ok(Overridden::ToCap { request, max_tokens }), Some(cap)) => request@ == told
                        && max_tokens == cap,
                    _ => false,
                }
            },
            Ok(_) => result is Ok && result->Ok_0 is Unchanged,
        }
    }
}

/// Sets the parameters of a profile on a request body.
pub fn apply_param_override_to_body(body: &[u8], config: &ParamOverrideConfig) -> (result: Result<
    Overridden,
    ProxyError,
>)
    ensures
        overrides_body(body@, *config, result),
{
    if !config.enabled || !param_override_has_fields(config) {
        return Ok(Overridden::Unchanged);
    }
    let value = match parse_json(body) {
        Ok(value) => value,
        Err(error) => {
            return Err(
                ProxyError::request_body(joined("request body is not JSON: ", error.as_str())),
            );
        },
    };
    match JsonObject::of(&value) {
        Some(object) => {
            let request = apply_param_override_object(object, config);
            match config.max_tokens {
                Some(max_tokens) => Ok(Overridden::ToCap { request, max_tokens }),
                None => Ok(
                    Overridden::Changed { body: render_json(&request).as_str().as_bytes_vec() },
                ),
            }
        },
        None => Ok(Overridden::Unchanged),
    }
}

/// Sets the parameters of a profile on a planned request, where it is a chat request
/// and there are some to set. Nothing is given where there is nothing to do.
pub fn apply_param_override_to_shielded_plan(
    method: &str,
    path: &str,
    plan: &ShieldedChatPlan,
    config: &ParamOverrideConfig,
) -> (result: Result<Option<Overridden>, ProxyError>)
    ensures
        if is_chat_request(method@, path@) && config.enabled && sets_fields(*config) {
            match result {
                Ok(Some(result)) => overrides_body(plan.upstream_body@, *config, Ok(result)),
                Ok(None) => false,
                Err(error) => overrides_body(plan.upstream_body@, *config, Err(error)),
            }
        } else {
            result is Ok && result->Ok_0 is None
        },
{
    if !param_override_applies(method, path, config) {
        return Ok(None);
    }
    match apply_param_override_to_body(plan.upstream_body.as_slice(), config) {
        Ok(result) => Ok(Some(result)),
        Err(error) => Err(error),
    }
}

/// Sets the parameters of a profile on the body of an attempt. One that is refused
/// is sent as it is.
pub fn apply_shielded_param_override_to_body_or_original(
    body: &[u8],
    config: &ParamOverrideConfig,
) -> (result: Overridden)
    ensures
        if config.enabled && sets_fields(*config) && parsed_json(body@) is Err {
            result is Refused
        } else {
            overrides_body(body@, *config, Ok(result))
        },
{
    match apply_param_override_to_body(body, config) {
        Ok(result) => result,
        Err(_) => Overridden::Refused,
    }
}

/// Setting the parameters of a profile twice is setting them once, on the request
/// itself as on the parameters that it nests.
pub proof fn overrides_are_idempotent(
    fields: Map<Seq<char>, JsonModel>,
    config: ParamOverrideConfig,
)
    ensures
        with_params(with_params(fields, config), config) == with_params(fields, config),
        overridden(overridden(fields, config), config) == overridden(fields, config),
{
    params_are_idempotent(fields, config);
    let told = with_params(fields, config);
    reveal_strlit("temperature");
    reveal_strlit("top_p");
    reveal_strlit("top_k");
    reveal_strlit("frequency_penalty");
    reveal_strlit("presence_penalty");
    reveal_strlit("parameters");
    assert("parameters"@.len() == 10);
    if told.contains_key("parameters"@) && told["parameters"@] is Object {
        let nested = told["parameters"@]->Object_0;
        params_are_idempotent(nested, config);
        let once = overridden(fields, config);
        assert(with_params(once, config) =~= once);
        assert(overridden(once, config) =~= once);
    }
}

proof fn params_are_idempotent(fields: Map<Seq<char>, JsonModel>, config: ParamOverrideConfig)
    ensures
        with_params(with_params(fields, config), config) =~= with_params(fields, config),
{
    reveal_strlit("temperature");
    reveal_strlit("top_p");
    reveal_strlit("top_k");
    reveal_strlit("frequency_penalty");
    reveal_strlit("presence_penalty");
    assert("temperature"@.len() == 11);
    assert("top_p"@[4] == 'p');
    assert("top_k"@[4] == 'k');
    assert("frequency_penalty"@.len() == 17);
    assert("presence_penalty"@.len() == 16);
}

proof fn param_names_differ()
    ensures
        "temperature"@ != "top_p"@,
        "temperature"@ != "top_k"@,
        "temperature"@ != "frequency_penalty"@,
        "temperature"@ != "presence_penalty"@,
        "top_p"@ != "top_k"@,
        "top_p"@ != "frequency_penalty"@,
        "top_p"@ != "presence_penalty"@,
        "top_k"@ != "frequency_penalty"@,
        "top_k"@ != "presence_penalty"@,
        "frequency_penalty"@ != "presence_penalty"@,
        "parameters"@ != "temperature"@,
        "parameters"@ != "top_p"@,
        "parameters"@ != "top_k"@,
        "parameters"@ != "frequency_penalty"@,
        "parameters"@ != "presence_penalty"@,
{
    reveal_strlit("temperature");
    reveal_strlit("top_p");
    reveal_strlit("top_k");
    reveal_strlit("frequency_penalty");
    reveal_strlit("presence_penalty");
    reveal_strlit("parameters");
    assert("temperature"@.len() == 11);
    assert("top_p"@.len() == 5);
    assert("top_k"@.len() == 5);
    assert("top_p"@[4] != "top_k"@[4]);
    assert("frequency_penalty"@.len() == 17);
    assert("presence_penalty"@.len() == 16);
    assert("parameters"@.len() == 10);
}

/// Each parameter that is set replaces the one of the request, under its own name;
/// what is not set and everything else stays as the request has it.
pub proof fn set_params_replace_those_of_the_request(
    fields: Map<Seq<char>, JsonModel>,
    config: ParamOverrideConfig,
    other: Seq<char>,
)
    ensures
        ({
            let told = with_params(fields, config);
            let kept = |key: Seq<char>|
                told.contains_key(key) == fields.contains_key(key) && (fields.contains_key(key)
                    ==> told[key] == fields[key]);
            let takes = |key: Seq<char>, value: FractionOverride|
                match value {
                    FractionOverride::Number(number) => told.contains_key(key) && told[key]
                        == JsonModel::Float(number@),
                    _ => kept(key),
                };
            &&& takes("temperature"@, config.temperature)
            &&& takes("top_p"@, config.top_p)
            &&& takes("frequency_penalty"@, config.frequency_penalty)
            &&& takes("presence_penalty"@, config.presence_penalty)
            &&& match config.top_k {
                Some(value) => told.contains_key("top_k"@) && told["top_k"@]
                    == JsonModel::Unsigned(value as u64),
                None => kept("top_k"@),
            }
            &&& other != "temperature"@ && other != "top_p"@ && other != "top_k"@ && other
                != "frequency_penalty"@ && other != "presence_penalty"@ ==> kept(other)
        }),
{
    param_names_differ();
}

/// The parameters are set in the request, and in its nested parameters where it has
/// any; nothing else in it changes.
pub proof fn params_are_set_at_both_levels(
    fields: Map<Seq<char>, JsonModel>,
    config: ParamOverrideConfig,
    key: Seq<char>,
)
    ensures
        ({
            let told = overridden(fields, config);
            &&& fields.contains_key("parameters"@) && fields["parameters"@] is Object
                ==> told.contains_key("parameters"@) && told["parameters"@] == JsonModel::Object(
                with_params(fields["parameters"@]->Object_0, config),
            )
            &&& fields.contains_key("parameters"@) && !(fields["parameters"@] is Object)
                ==> told.contains_key("parameters"@) && told["parameters"@] == fields["parameters"@]
            &&& !fields.contains_key("parameters"@) ==> !told.contains_key("parameters"@)
            &&& key != "parameters"@ ==> told.contains_key(key) == with_params(
                fields,
                config,
            ).contains_key(key)
            &&& key != "parameters"@ && told.contains_key(key) ==> told[key] == with_params(
                fields,
                config,
            )[key]
        }),
{
    param_names_differ();
}

/// A body is changed only where the override is on and sets something, and only where
/// it is an object; a body that cannot be read is refused.
pub proof fn overrides_change_objects_only(
    body: Seq<u8>,
    config: ParamOverrideConfig,
    result: Result<Overridden, ProxyError>,
)
    requires
        overrides_body(body, config, result),
    ensures
        !config.enabled ==> (result matches Ok(told) && told is Unchanged),
        parsed_json(body) is Ok ==> result is Ok,
        config.enabled && config.top_k is Some && parsed_json(body) is Err ==> (
        result matches Err(error) && error.kind is RequestBody),
        config.enabled && config.top_k is Some && (parsed_json(body) matches Ok(value)
            && value is Object) ==> (result matches Ok(told) && !(told is Unchanged)),
        parsed_json(body) matches Ok(value) && !(value is Object) ==> (result matches Ok(told)
            && told is Unchanged),
{
}

/// The parameters are rewritten where one of them is set, and native controls are looked
/// at where they are configured anywhere.
pub proof fn set_parameters_are_written(
    config: ParamOverrideConfig,
    profile: DefaultInjectionSchema,
    ladder: Seq<Option<DefaultInjectionSchema>>,
    i: int,
    fields: Map<Seq<char>, JsonModel>,
    key: Seq<char>,
)
    ensures
        config.max_tokens is Some ==> sets_fields(config),
        config.top_k is Some ==> sets_fields(config),
        !(config.temperature is Unset) ==> sets_fields(config),
        !(config.top_p is Unset) ==> sets_fields(config),
        !(config.frequency_penalty is Unset) ==> sets_fields(config),
        !(config.presence_penalty is Unset) ==> sets_fields(config),
        config.max_tokens is None && config.top_k is None && config.temperature is Unset
            && config.top_p is Unset && config.frequency_penalty is Unset
            && config.presence_penalty is Unset ==> !sets_fields(config),
        native_configured(DefaultInjectionSchema::VllmNative, ladder),
        0 <= i < ladder.len() && ladder[i] == Some(DefaultInjectionSchema::VllmNative)
            ==> native_configured(profile, ladder),
        !(profile is VllmNative) && (forall|i: int|
            0 <= i < ladder.len() ==> #[trigger] ladder[i] != Some(
                DefaultInjectionSchema::VllmNative,
            )) ==> !native_configured(profile, ladder),
        conflict_bindings()["thinking_control_validation"@] == "rejected_conflict"@,
        with_fraction(fields, key, FractionOverride::Unset) == fields,
{
    reveal_strlit("thinking_control_validation");
    reveal_strlit("thinking_default_injection_schema");
    assert("thinking_control_validation"@.len() == 27);
    assert("thinking_default_injection_schema"@.len() == 33);
}

/// A body that is rewritten says the parameters that are set; where its length is capped
/// too, the cap is handed on.
pub proof fn rewritten_bodies_say_what_is_set(
    body: Seq<u8>,
    config: ParamOverrideConfig,
    fields: Map<Seq<char>, JsonModel>,
    result: Result<Overridden, ProxyError>,
)
    requires
        overrides_body(body, config, result),
        parsed_json(body) == Ok::<JsonModel, Seq<char>>(JsonModel::Object(fields)),
        config.enabled,
        config.top_k is Some,
    ensures
        config.max_tokens is None ==> (result matches Ok(Overridden::Changed { body: told })
            && told@ == encode_utf8(rendered_json(JsonModel::Object(overridden(fields, config))))),
        config.max_tokens matches Some(cap) ==> (result matches Ok(
            Overridden::ToCap { request, max_tokens },
        ) && max_tokens == cap && request@ == JsonModel::Object(overridden(fields, config))),
{
}

/// A body that is no JSON is told with the reason.
pub proof fn unread_bodies_are_told(
    body: Seq<u8>,
    config: ParamOverrideConfig,
    reason: Seq<char>,
    result: Result<Overridden, ProxyError>,
)
    requires
        overrides_body(body, config, result),
        config.enabled,
        sets_fields(config),
        parsed_json(body) == Err::<JsonModel, Seq<char>>(reason),
    ensures
        result matches Err(error) && crate::text::has_part(error.kind.message_text(), reason)
            && error@.request_metadata is None && error@.attempts.len() == 0,
{
    let first = "failed to read request body within proxy limit: "@;
    let second = "request body is not JSON: "@;
    assert(first + (second + reason) =~= (first + second) + reason + Seq::<char>::empty());
    crate::text::prefixes_and_parts_are_found(first + second, reason, Seq::empty());
}

} // verus!
