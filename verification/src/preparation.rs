//! Preparing a request to be sent on: whose it is, which profile serves it, in
//! what form it goes, and whether it fits.

use crate::adapters::{
    adapt_openai_request_if_needed, adapts, AdaptedOpenAiRequest, BufferedResponseAdapter,
    ScoreRewrite,
};
use crate::admission::ListenerUpstreamDenied;
use crate::callers::{
    add_caller_profile_metadata, budget_allows, budget_refuses, caller_choice, choice_model,
    enforce_caller_profile_budget, resolve_caller_profile, virtual_key_of, with_caller_profile,
    BudgetCheck, CallerSettings, ResolvedCallerProfile,
};
use crate::context_budget::{
    budget_param, context_budget_preflight, estimate_bindings, estimate_message, is_over_budget,
    not_estimated, request_estimate, EstimateModel,
};
use crate::errors::{bare_error, is_invalid_request, ErrorKind, ProxyError, ProxyErrorModel};
use crate::failover::{UpstreamEndpointConfig, UpstreamEndpointProtocol};
use crate::forwarding::{
    chat_plan, extract_model_id, is_intercepted, is_method, named_model, plan_shielded_chat,
    should_intercept_non_stream_chat, upstream_method, PlanModel, PreparedChatRequest,
    ShieldedChatPlan,
};
use crate::headers::Headers;
use crate::liveness::{
    add_shielded_request_metadata, with_shielded_request, ShieldedLivenessSelection,
};
use crate::metadata::{Bindings, Metadata};
use crate::overrides::{
    conflict_bindings, native_configured, validate_vllm_native_request_controls,
    DefaultInjectionSchema,
};
use crate::path::{build_upstream_url, upstream_url, UpstreamUrlError, UpstreamUrlErrorModel};
use crate::profiles::{
    add_upstream_profile_metadata, reason_text, request_choice, route_reason_text,
    select_profile_for_request, with_upstream_profile, AliasTarget, ListenerConfig,
    RouteReasonLabels, SelectedUpstreamProfile, UpstreamProfileConfig, UpstreamRouteReason,
};
use crate::text::opt_chars;
use crate::uri::RequestTarget;
use crate::workflows::{
    alias_refusal, aliased_workflow, blocks, is_chat_request, workflow_alias_for_model,
    ModelAlias, ResolvedWorkflowAlias,
};
use vstd::prelude::*;

verus! {

// ---------------------------------------------------------------------------
// Whose request it is
// ---------------------------------------------------------------------------

/// The profile of a caller and the model that a request names.
pub struct IdentifiedCaller {
    pub profile: ResolvedCallerProfile,
    pub model_id: Option<String>,
}

/// Finds out whose request it is and which model it names, and records the
/// former.
pub fn identify_caller(
    settings: &CallerSettings,
    method: &str,
    uri: &RequestTarget,
    headers: &Headers,
    body: &[u8],
    is_score_request: bool,
    score_model: Option<String>,
    request_metadata: &mut Metadata,
) -> (caller: Result<IdentifiedCaller, ProxyError>)
    ensures
        match caller {
            Ok(caller) => {
                &&& caller_choice(*settings, virtual_key_of(headers@), Ok(caller.profile))
                &&& opt_chars(caller.model_id) == named_model(
                    method@,
                    uri@.0,
                    body@,
                    is_score_request,
                    opt_chars(score_model),
                )
                &&& final(request_metadata)@ == with_caller_profile(
                    old(request_metadata)@,
                    caller.profile,
                )
            },
            Err(error) => {
                &&& caller_choice(*settings, virtual_key_of(headers@), Err(error@))
                &&& final(request_metadata)@ == old(request_metadata)@
            },
        },
{
    let choice = resolve_caller_profile(settings, headers);
    let ghost model = choice_model(choice);
    match choice {
        Ok(profile) => {
            add_caller_profile_metadata(request_metadata, &profile);
            let model_id = extract_model_id(method, uri, body, is_score_request, score_model);
            assert(model == Ok::<ResolvedCallerProfile, ProxyErrorModel>(profile));
            Ok(IdentifiedCaller { profile, model_id })
        },
        Err(error) => Err(error),
    }
}

// ---------------------------------------------------------------------------
// Where it goes
// ---------------------------------------------------------------------------

/// What the budget store says of a request on a date.
pub struct BudgetAnswer {
    pub enabled: bool,
    pub limit: u64,
    pub date: String,
    pub check: Result<BudgetCheck, String>,
}

/// What the configuration says of the model of a request.
pub struct ModelRouting {
    /// What is configured under the name of the model.
    pub workflow: Option<Result<ModelAlias, String>>,
    /// What the model stands for, where that can be used.
    pub alias: Option<AliasTarget>,
    /// The profile that is selected for the model.
    pub selected: SelectedUpstreamProfile,
    /// The first profile of the listener, where it is configured.
    pub first_allowed: Option<String>,
}

/// Where a request goes, and in what form.
pub struct ForwardRoute {
    pub workflow_alias: Option<ResolvedWorkflowAlias>,
    pub adapted: AdaptedOpenAiRequest,
    pub selected: SelectedUpstreamProfile,
}

/// Decides where a request goes and in what form. The budget is looked at first,
/// then the model alias, then the form of the request, then the listener; the
/// first of them that refuses the request is what the client is told of.
pub fn choose_route(
    caller: &IdentifiedCaller,
    budget: BudgetAnswer,
    routing: ModelRouting,
    listener: &ListenerConfig,
    method: &str,
    uri: &RequestTarget,
    headers: &Headers,
    body: &Vec<u8>,
    score: ScoreRewrite,
    request_metadata: &mut Metadata,
) -> (route: Result<ForwardRoute, ProxyError>)
    ensures
        ({
            let model = opt_chars(caller.model_id);
            let budget_ok = budget_allows(budget.enabled, budget.limit, budget.check);
            let alias_ok = alias_refusal(model, routing.workflow) is None;
            let before = old(request_metadata)@;
            let after = final(request_metadata)@;
            match route {
                Ok(route) => {
                    &&& budget_ok
                    &&& alias_ok
                    &&& route.workflow_alias == aliased_workflow(model, routing.workflow)
                    &&& adapts(
                        method@,
                        uri@,
                        headers@,
                        body@,
                        score,
                        before,
                        after,
                        Ok(route.adapted),
                    )
                    &&& request_choice(
                        *listener,
                        method@,
                        uri@.0,
                        routing.first_allowed,
                        model,
                        routing.alias,
                        routing.selected,
                        Ok(route.selected),
                    )
                },
                Err(error) => {
                    ||| budget_refuses(
                        caller.profile.name@,
                        budget.enabled,
                        budget.limit,
                        budget.date@,
                        budget.check,
                        error,
                    ) && after == before
                    ||| budget_ok && !alias_ok && blocks(
                        error,
                        alias_refusal(model, routing.workflow)->Some_0,
                    ) && after == before
                    ||| budget_ok && alias_ok && adapts(
                        method@,
                        uri@,
                        headers@,
                        body@,
                        score,
                        before,
                        after,
                        Err(error),
                    )
                    ||| budget_ok && alias_ok && (exists|adapted: AdaptedOpenAiRequest|
                        adapts(
                            method@,
                            uri@,
                            headers@,
                            body@,
                            score,
                            before,
                            after,
                            Ok(adapted),
                        )) && (exists|denied: ListenerUpstreamDenied|
                        #[trigger]
                        request_choice(
                            *listener,
                            method@,
                            uri@.0,
                            routing.first_allowed,
                            model,
                            routing.alias,
                            routing.selected,
                            Err(denied),
                        ) && error@ == bare_error(
                            ErrorKind::ListenerUpstreamDenied { failure: denied },
                        ))
                },
            }
        }),
{
    match enforce_caller_profile_budget(
        &caller.profile,
        budget.enabled,
        budget.limit,
        budget.date,
        budget.check,
    ) {
        Ok(_) => {},
        Err(error) => {
            return Err(error);
        },
    }
    let model: Option<&str> = match &caller.model_id {
        Some(model) => Some(model.as_str()),
        None => None,
    };
    let workflow_alias = match workflow_alias_for_model(model, routing.workflow) {
        Ok(alias) => alias,
        Err(error) => {
            return Err(error);
        },
    };
    let adapted = match adapt_openai_request_if_needed(
        method,
        uri,
        headers,
        body,
        score,
        request_metadata,
    ) {
        Ok(adapted) => adapted,
        Err(error) => {
            return Err(error);
        },
    };
    let selected = match select_profile_for_request(
        listener,
        method,
        uri.path.as_str(),
        routing.first_allowed,
        model,
        routing.alias,
        routing.selected,
    ) {
        Ok(selected) => selected,
        Err(denied) => {
            return Err(ProxyError::listener_denied(denied));
        },
    };
    Ok(ForwardRoute { workflow_alias, adapted, selected })
}

// ---------------------------------------------------------------------------
// How it goes
// ---------------------------------------------------------------------------

/// Whether an error says why no upstream URL can be built.
pub open spec fn tells_url_error(
    error: ProxyError,
    cause: UpstreamUrlErrorModel,
    display: Seq<char>,
) -> bool {
    &&& error@ == bare_error(error.kind)
    &&& match (error.kind, cause) {
        (ErrorKind::InvalidRequestPath(told), UpstreamUrlErrorModel::Path(path)) => told == path,
        (
            ErrorKind::InvalidUpstreamUrl { display_url, reason },
            UpstreamUrlErrorModel::Url(why),
        ) => display_url@ == display && reason@ == why,
        _ => false,
    }
}

/// The error of a request that no upstream URL can be built for.
pub fn url_error(error: UpstreamUrlError, display_url: &str) -> (told: ProxyError)
    ensures
        tells_url_error(told, error@, display_url@),
{
    match error {
        UpstreamUrlError::Path(error) => ProxyError::invalid_request_path(error),
        UpstreamUrlError::Url(reason) => ProxyError::invalid_upstream_url(
            display_url.to_owned(),
            reason,
        ),
    }
}

/// What the plan of a request depends on besides the request.
pub struct PlanSettings {
    /// The base URL of the profile as it may be shown.
    pub display_url: String,
    /// Why the base URL is not allowed as an upstream, if it is not.
    pub base_check: Option<String>,
    pub reason_labels: RouteReasonLabels,
    /// Whether an endpoint of the profile speaks another reranker protocol.
    pub has_reranker_endpoint: bool,
    /// Whether the request is a reranker request with a normal form.
    pub has_canonical_form: bool,
    pub injection_schema: DefaultInjectionSchema,
    pub ladder_schemas: Vec<Option<DefaultInjectionSchema>>,
    /// Whether the thinking controls of the request contradict each other.
    pub conflicting_controls: bool,
    pub shielding_enabled: bool,
    pub streaming_enabled: bool,
    /// The request as it would be sent on, where it is answered whole.
    pub non_stream: Option<PreparedChatRequest>,
    /// The request as it would be sent on, where it is a stream.
    pub stream: Option<PreparedChatRequest>,
}

/// How a request is sent on.
pub struct PlannedForward {
    pub upstream_url: reqwest::Url,
    pub upstream_method: String,
    /// Why the profile was chosen, as it is recorded.
    pub route_reason: String,
    pub forward_uri: RequestTarget,
    pub response_adapter: Option<BufferedResponseAdapter>,
    pub transformed_request_headers: bool,
    pub plan: ShieldedChatPlan,
}

/// How the response of a request is rewritten. A profile with endpoints that speak
/// different reranker protocols has its own way.
pub open spec fn chosen_adapter(
    settings: PlanSettings,
    adapter: Option<BufferedResponseAdapter>,
) -> Option<BufferedResponseAdapter> {
    if settings.has_reranker_endpoint && settings.has_canonical_form {
        Some(BufferedResponseAdapter::HeterogeneousReranker)
    } else {
        adapter
    }
}

/// Whether the thinking controls of a request are refused.
pub open spec fn refuses_controls(method: Seq<char>, path: Seq<char>, settings: PlanSettings) -> bool {
    is_chat_request(method, path) && native_configured(
        settings.injection_schema,
        settings.ladder_schemas@,
    ) && settings.conflicting_controls
}

/// Plans how a request is sent on: the upstream URL, the method, and the form of
/// its body. The first thing that stands against it is what the client is told of.
pub fn plan_forwarding(
    profile: &UpstreamProfileConfig,
    reason: UpstreamRouteReason,
    settings: PlanSettings,
    adapted: AdaptedOpenAiRequest,
    method: &str,
    request_metadata: &mut Metadata,
) -> (planned: Result<PlannedForward, ProxyError>)
    ensures
        final(request_metadata)@ == with_upstream_profile(
            old(request_metadata)@,
            *profile,
            reason_text(reason, settings.reason_labels),
        ),
        ({
            let url = upstream_url(
                profile.base_url@,
                opt_chars(settings.base_check),
                adapted@.forward_uri,
            );
            match planned {
                Ok(planned) => {
                    &&& url == Ok::<reqwest::Url, UpstreamUrlErrorModel>(planned.upstream_url)
                    &&& is_method(method@)
                    &&& planned.upstream_method@ == method@
                    &&& planned.route_reason@ == reason_text(reason, settings.reason_labels)
                    &&& !refuses_controls(method@, adapted@.forward_uri.0, settings)
                    &&& planned.forward_uri@ == adapted@.forward_uri
                    &&& planned.response_adapter == chosen_adapter(
                        settings,
                        adapted.response_adapter,
                    )
                    &&& planned.transformed_request_headers == (adapted.response_adapter is Some)
                    &&& planned.plan@ == chat_plan(
                        adapted@.adapted_body,
                        is_intercepted(
                            method@,
                            adapted@.forward_uri.0,
                            settings.shielding_enabled,
                        ),
                        settings.streaming_enabled,
                        settings.non_stream,
                        settings.stream,
                    )
                },
                Err(error) => {
                    ||| url is Err && tells_url_error(
                        error,
                        url->Err_0,
                        settings.display_url@,
                    )
                    ||| url is Ok && !is_method(method@) && error.kind is InvalidMethod
                        && error.kind.message_text() == "invalid HTTP method: "@
                        + "invalid HTTP method"@ && error@ == bare_error(error.kind)
                    ||| url is Ok && is_method(method@) && refuses_controls(
                        method@,
                        adapted@.forward_uri.0,
                        settings,
                    ) && is_invalid_request(
                        error.kind,
                        "positive thinking_token_budget cannot be combined with an explicit no-thinking marker"@,
                        "thinking_token_budget"@,
                        "conflicting_thinking_controls"@,
                    ) && error@ == (ProxyErrorModel {
                        request_metadata: Some(conflict_bindings()),
                        ..bare_error(error.kind)
                    })
                },
            }
        }),
{
    let route_reason = route_reason_text(reason, &settings.reason_labels);
    add_upstream_profile_metadata(request_metadata, profile, route_reason.as_str());
    let transformed_request_headers = adapted.response_adapter.is_some();
    let response_adapter = if settings.has_reranker_endpoint && settings.has_canonical_form {
        Some(BufferedResponseAdapter::HeterogeneousReranker)
    } else {
        adapted.response_adapter
    };
    let url = match build_upstream_url(
        profile.base_url.as_str(),
        settings.base_check,
        &adapted.forward_uri,
    ) {
        Ok(url) => url,
        Err(error) => {
            return Err(url_error(error, settings.display_url.as_str()));
        },
    };
    let upstream = match upstream_method(method) {
        Ok(upstream) => upstream,
        Err(error) => {
            return Err(error);
        },
    };
    match validate_vllm_native_request_controls(
        settings.injection_schema,
        &settings.ladder_schemas,
        method,
        adapted.forward_uri.path.as_str(),
        settings.conflicting_controls,
    ) {
        Ok(_) => {},
        Err(error) => {
            return Err(error);
        },
    }
    let intercepts = should_intercept_non_stream_chat(
        method,
        adapted.forward_uri.path.as_str(),
        settings.shielding_enabled,
    );
    let plan = plan_shielded_chat(
        adapted.adapted_body,
        intercepts,
        settings.streaming_enabled,
        settings.non_stream,
        settings.stream,
    );
    Ok(
        PlannedForward {
            upstream_url: url,
            upstream_method: upstream,
            route_reason,
            forward_uri: adapted.forward_uri,
            response_adapter,
            transformed_request_headers,
            plan,
        },
    )
}

// ---------------------------------------------------------------------------
// Whether it fits
// ---------------------------------------------------------------------------

/// What is recorded of a plan.
pub open spec fn planned_bindings(
    before: Bindings,
    plan: PlanModel,
    liveness: ShieldedLivenessSelection,
) -> Bindings {
    with_shielded_request(
        before,
        plan.intercepted,
        plan.thinking_policy_applied,
        liveness,
        plan.thinking_metadata,
    )
}

/// The estimate of a planned request, where it is estimated.
pub open spec fn planned_estimate(
    plan: PlanModel,
    profile: UpstreamProfileConfig,
    method: Seq<char>,
    path: Seq<char>,
) -> Option<EstimateModel> {
    match (budget_param(method, path), profile.context_window_tokens) {
        (Some(param), Some(window)) => Some(
            request_estimate(
                param,
                plan.downstream_body,
                plan.upstream_body,
                window,
                profile.input_token_safety_margin,
            ),
        ),
        _ => None,
    }
}

/// Records a plan, and refuses a request that does not fit its model.
pub fn check_plan(
    plan: &ShieldedChatPlan,
    liveness: &ShieldedLivenessSelection,
    profile: &UpstreamProfileConfig,
    method: &str,
    path: &str,
    request_metadata: &mut Metadata,
) -> (checked: Result<(), ProxyError>)
    ensures
        ({
            let told = planned_bindings(old(request_metadata)@, plan@, *liveness);
            let estimate = planned_estimate(plan@, *profile, method@, path@);
            match checked {
                Ok(_) => {
                    &&& estimate matches Some(estimate) ==> !is_over_budget(estimate)
                    &&& final(request_metadata)@ == told.union_prefer_right(
                        match estimate {
                            Some(estimate) => estimate_bindings(estimate, "allowed"@),
                            None => not_estimated(
                                if budget_param(method@, path@) is None {
                                    "not_applicable"@
                                } else {
                                    "skipped_no_context_window"@
                                },
                            ),
                        },
                    )
                },
                Err(error) => {
                    &&& estimate is Some
                    &&& is_over_budget(estimate->Some_0)
                    &&& is_invalid_request(
                        error.kind,
                        estimate_message(estimate->Some_0),
                        budget_param(method@, path@)->Some_0,
                        "context_budget_exceeded"@,
                    )
                    &&& error@ == (ProxyErrorModel {
                        request_metadata: Some(
                            estimate_bindings(estimate->Some_0, "rejected"@),
                        ),
                        ..bare_error(error.kind)
                    })
                    &&& final(request_metadata)@ == told
                },
            }
        }),
{
    add_shielded_request_metadata(
        request_metadata,
        plan.intercepted,
        plan.thinking_policy_applied,
        liveness,
        &plan.thinking_metadata,
    );
    match context_budget_preflight(
        method,
        path,
        plan.downstream_body.as_slice(),
        plan.upstream_body.as_slice(),
        profile.context_window_tokens,
        profile.input_token_safety_margin,
    ) {
        Ok(metadata) => {
            request_metadata.extend(&metadata);
            Ok(())
        },
        Err(error) => Err(error),
    }
}

/// The endpoint that a request starts with where its profile has no others, and
/// the order in which its endpoints are tried.
pub fn initial_endpoint_retry_state(profile: &UpstreamProfileConfig, display_url: &str) -> (state: (
    UpstreamEndpointConfig,
    Vec<String>,
))
    ensures
        state.0.base_url@ == profile.base_url@,
        state.0.display_url@ == display_url@,
        state.0.protocol is OpenAi,
        state.0.priority_label@ == "primary"@,
        !state.0.has_credential,
        !state.0.is_passive_cloud,
        state.1@.len() == 1,
        state.1@[0]@ == profile.base_url@,
{
    let mut order: Vec<String> = Vec::new();
    order.push(profile.base_url.clone());
    (
        UpstreamEndpointConfig {
            base_url: profile.base_url.clone(),
            display_url: display_url.to_owned(),
            protocol: UpstreamEndpointProtocol::OpenAi,
            priority_label: "primary".to_owned(),
            has_credential: false,
            is_passive_cloud: false,
        },
        order,
    )
}

/// A completion whose prompt alone outgrows the context window of its upstream is over
/// the budget of its plan, whatever was made of its body.
pub proof fn plans_are_held_to_the_window(
    plan: PlanModel,
    profile: UpstreamProfileConfig,
    fields: Map<Seq<char>, crate::json::JsonModel>,
    text: Seq<char>,
    window: u64,
)
    requires
        profile.context_window_tokens == Some(window),
        window < u64::MAX,
        crate::json::parsed_json(plan.downstream_body) == Ok::<crate::json::JsonModel, Seq<char>>(crate::json::JsonModel::Object(fields)),
        fields.contains_key("prompt"@),
        fields["prompt"@] == crate::json::JsonModel::Text(text),
        vstd::utf8::encode_utf8(text).len() > 4 * window,
    ensures
        planned_estimate(plan, profile, "POST"@, "/v1/completions"@) matches Some(estimate)
            && is_over_budget(estimate),
{
    crate::context_budget::chats_and_completions_are_estimated("POST"@, "/v1/completions"@);
    crate::context_budget::inputs_that_outgrow_the_window_are_refused(
        plan.downstream_body,
        plan.upstream_body,
        window,
        profile.input_token_safety_margin,
        fields,
        text,
    );
}

/// An upstream without a known window takes every request.
pub proof fn unknown_windows_take_all(
    plan: PlanModel,
    profile: UpstreamProfileConfig,
    method: Seq<char>,
    path: Seq<char>,
)
    requires
        profile.context_window_tokens is None,
    ensures
        planned_estimate(plan, profile, method, path) is None,
{
}

/// An address that cannot be reached is told as such, and a path that may not be as that.
pub proof fn bad_addresses_are_told(
    error: ProxyError,
    path: crate::path::OpenAiPathError,
    why: Seq<char>,
    display: Seq<char>,
)
    ensures
        tells_url_error(error, UpstreamUrlErrorModel::Path(path), display) ==> error.kind
            == ErrorKind::InvalidRequestPath(path),
        tells_url_error(error, UpstreamUrlErrorModel::Url(why), display) ==> (error.kind matches ErrorKind::InvalidUpstreamUrl {
            display_url,
            reason,
        } && display_url@ == display && reason@ == why),
        tells_url_error(error, UpstreamUrlErrorModel::Path(path), display)
            ==> error@.request_metadata is None && error@.attempts.len() == 0,
{
}

/// An adapter is chosen for rerankers that can be asked in more than one form; controls
/// are refused for chats alone, where they conflict with the native ones.
pub proof fn rerankers_are_adapted(
    settings: PlanSettings,
    adapter: Option<BufferedResponseAdapter>,
    method: Seq<char>,
    path: Seq<char>,
)
    ensures
        settings.has_reranker_endpoint && settings.has_canonical_form ==> chosen_adapter(
            settings,
            adapter,
        ) == Some(BufferedResponseAdapter::HeterogeneousReranker),
        !settings.has_reranker_endpoint ==> chosen_adapter(settings, adapter) == adapter,
        !settings.has_canonical_form ==> chosen_adapter(settings, adapter) == adapter,
        !settings.conflicting_controls ==> !refuses_controls(method, path, settings),
        !is_chat_request(method, path) ==> !refuses_controls(method, path, settings),
        is_chat_request(method, path) && settings.injection_schema is VllmNative
            && settings.conflicting_controls ==> refuses_controls(method, path, settings),
{
}

} // verus!
