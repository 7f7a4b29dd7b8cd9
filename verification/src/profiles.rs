//! Listeners, upstream profiles, and which profile serves a model.

use crate::admission::{is_control_plane_models_request, ListenerUpstreamDenied};
use crate::metadata::{Bindings, Metadata};
use crate::text::{
    bool_chars, clone_list, contains, decimal, decimal_text, has_part, hex_text, hexadecimal,
    joined, lowered, opt_str_chars, position_of, to_lowercase, trim, trimmed,
};
use vstd::prelude::*;
use vstd::utf8::encode_utf8;

verus! {

/// Longest model identifier, in bytes, that a refusal shows.
pub const MAX_DENIED_MODEL_ID_BYTES: usize = 128;

/// A listener of the proxy.
pub struct ListenerConfig {
    pub name: String,
    pub bind_host: String,
    pub port: u16,
    /// The profiles that the listener serves; all of them where there is no list.
    pub allowed_upstreams: Option<Vec<String>>,
}

/// Whether a listener serves a profile.
pub open spec fn listener_allows(listener: ListenerConfig, profile: Seq<char>) -> bool {
    match listener.allowed_upstreams {
        Some(list) => exists|i: int| 0 <= i < list.len() && (#[trigger] list[i])@ == profile,
        None => true,
    }
}

impl ListenerConfig {
    /// Whether the listener serves a profile.
    pub fn allows_upstream(&self, profile: &str) -> (allows: bool)
        ensures
            allows == listener_allows(*self, profile@),
    {
        match &self.allowed_upstreams {
            Some(list) => match position_of(list, profile) {
                Some(_) => true,
                None => false,
            },
            None => true,
        }
    }
}

/// The bindings with a listener recorded.
pub open spec fn with_listener(bindings: Bindings, listener: ListenerConfig) -> Bindings {
    bindings.insert("listener_name"@, listener.name@).insert(
        "listener_bind_host"@,
        listener.bind_host@,
    ).insert("listener_port"@, decimal(listener.port as nat)).insert(
        "listener_restricted"@,
        bool_chars(listener.allowed_upstreams is Some),
    )
}

/// Records the listener of a request.
pub fn add_listener_metadata(metadata: &mut Metadata, listener: &ListenerConfig)
    ensures
        final(metadata)@ == with_listener(old(metadata)@, *listener),
{
    metadata.set("listener_name", listener.name.as_str());
    metadata.set("listener_bind_host", listener.bind_host.as_str());
    metadata.set_number("listener_port", listener.port as u64);
    metadata.set_bool("listener_restricted", listener.allowed_upstreams.is_some());
}

/// What the decisions read of an upstream profile.
pub struct UpstreamProfileConfig {
    pub name: String,
    pub base_url: String,
    pub match_models: Vec<String>,
    pub request_timeout_ms: u64,
    pub context_window_tokens: Option<u64>,
    pub input_token_safety_margin: u64,
}

impl Clone for UpstreamProfileConfig {
    fn clone(&self) -> (copy: UpstreamProfileConfig)
        ensures
            copy.name == self.name,
            copy.base_url == self.base_url,
            copy.match_models@ == self.match_models@,
            copy.request_timeout_ms == self.request_timeout_ms,
            copy.context_window_tokens == self.context_window_tokens,
            copy.input_token_safety_margin == self.input_token_safety_margin,
    {
        UpstreamProfileConfig {
            name: self.name.clone(),
            base_url: self.base_url.clone(),
            match_models: clone_list(&self.match_models),
            request_timeout_ms: self.request_timeout_ms,
            context_window_tokens: self.context_window_tokens,
            input_token_safety_margin: self.input_token_safety_margin,
        }
    }
}

/// The bindings with an upstream profile recorded.
pub open spec fn with_upstream_profile(
    bindings: Bindings,
    profile: UpstreamProfileConfig,
    route_reason: Seq<char>,
) -> Bindings {
    bindings.insert("upstream_profile"@, profile.name@).insert(
        "upstream_route_reason"@,
        route_reason,
    ).insert("upstream_request_timeout_ms"@, decimal(profile.request_timeout_ms as nat)).insert(
        "upstream_context_window_configured"@,
        bool_chars(profile.context_window_tokens is Some),
    ).insert(
        "upstream_context_window_tokens"@,
        match profile.context_window_tokens {
            Some(tokens) => decimal(tokens as nat),
            None => "unknown"@,
        },
    ).insert(
        "upstream_input_token_safety_margin"@,
        decimal(profile.input_token_safety_margin as nat),
    )
}

/// Records the upstream profile of a request and why it was chosen.
pub fn add_upstream_profile_metadata(
    metadata: &mut Metadata,
    profile: &UpstreamProfileConfig,
    route_reason: &str,
)
    ensures
        final(metadata)@ == with_upstream_profile(old(metadata)@, *profile, route_reason@),
{
    metadata.set("upstream_profile", profile.name.as_str());
    metadata.set("upstream_route_reason", route_reason);
    metadata.set_number("upstream_request_timeout_ms", profile.request_timeout_ms);
    metadata.set_bool(
        "upstream_context_window_configured",
        profile.context_window_tokens.is_some(),
    );
    match profile.context_window_tokens {
        Some(tokens) => {
            metadata.set_number("upstream_context_window_tokens", tokens);
        },
        None => {
            metadata.set("upstream_context_window_tokens", "unknown");
        },
    }
    metadata.set_number("upstream_input_token_safety_margin", profile.input_token_safety_margin);
}

// ---------------------------------------------------------------------------
// Model identifiers
// ---------------------------------------------------------------------------

/// A model identifier without white space around it, where something is left.
pub open spec fn model_name(model: Option<Seq<char>>) -> Option<Seq<char>> {
    match model {
        Some(model) => if trimmed(model).len() > 0 {
            Some(trimmed(model))
        } else {
            None
        },
        None => None,
    }
}

/// A model identifier without white space around it, where something is left.
pub fn normalized_model_id(model: Option<&str>) -> (name: Option<String>)
    ensures
        crate::text::opt_chars(name) == model_name(opt_str_chars(model)),
{
    match model {
        Some(model) => {
            let name = trim(model);
            if name.as_str().is_empty() {
                None
            } else {
                Some(name)
            }
        },
        None => None,
    }
}

/// Whether a text looks like it holds a credential.
pub open spec fn looks_sensitive(text: Seq<char>) -> bool {
    let lower = lowered(text);
    ||| has_part(lower, "bearer "@)
    ||| has_part(lower, "api_key"@)
    ||| has_part(lower, "api-key"@)
    ||| has_part(lower, "x-api-key"@)
    ||| has_part(lower, "authorization"@)
    ||| has_part(lower, "sk-"@)
}

/// Whether a text looks like it holds a credential.
pub fn looks_sensitive_text(value: &str) -> (sensitive: bool)
    ensures
        sensitive == looks_sensitive(value@),
{
    let lower = to_lowercase(value);
    let text = lower.as_str();
    contains(text, "bearer ") || contains(text, "api_key") || contains(text, "api-key") || contains(
        text,
        "x-api-key",
    ) || contains(text, "authorization") || contains(text, "sk-")
}

/// The hash of a text under the standard library's default hasher.
pub uninterp spec fn text_hash(text: Seq<char>) -> u64;

/// `std::collections::hash_map::DefaultHasher::new`, fed with a text. A hasher
/// made by `new` is the same as every other made by `new`, so the hash is a
/// function of the text.
#[verifier::external_body]
fn hash_text(text: &str) -> (hash: u64)
    ensures
        hash == text_hash(text@),
{
    let mut hasher = std::collections::hash_map::DefaultHasher::new();
    std::hash::Hash::hash(text, &mut hasher);
    std::hash::Hasher::finish(&hasher)
}

/// A hash as it is shown.
pub open spec fn shown_hash(hash: u64) -> Seq<char> {
    "siphash64:"@ + hexadecimal(hash as nat, 16)
}

/// Shows a hash.
pub fn show_hash(hash: u64) -> (shown: String)
    ensures
        shown@ == shown_hash(hash),
{
    joined("siphash64:", hex_text(hash, 16).as_str())
}

/// The hash of a text, as it is shown in place of the text.
pub fn stable_text_hash(value: &str) -> (shown: String)
    ensures
        shown@ == shown_hash(text_hash(value@)),
{
    show_hash(hash_text(value))
}

/// The model identifier as a refusal shows it: short identifiers that do not look
/// like credentials as they are, others by length and hash.
pub open spec fn denied_model_text(model: Option<Seq<char>>) -> Seq<char> {
    match model {
        None => "[none]"@,
        Some(model) => if encode_utf8(model).len() <= MAX_DENIED_MODEL_ID_BYTES && !looks_sensitive(
            model,
        ) {
            model
        } else {
            "[redacted model: bytes="@ + decimal(encode_utf8(model).len()) + ", hash="@
                + shown_hash(text_hash(model)) + "]"@
        },
    }
}

/// The model identifier as a refusal shows it.
pub fn denied_model_id_summary(model: Option<&str>) -> (summary: String)
    ensures
        summary@ == denied_model_text(opt_str_chars(model)),
{
    let model = match model {
        Some(model) => model,
        None => {
            return "[none]".to_owned();
        },
    };
    let bytes: usize = model.as_bytes().len();
    if bytes <= MAX_DENIED_MODEL_ID_BYTES && !looks_sensitive_text(model) {
        return model.to_owned();
    }
    let mut summary = "[redacted model: bytes=".to_owned();
    summary.append(decimal_text(bytes as u64).as_str());
    summary.append(", hash=");
    summary.append(stable_text_hash(model).as_str());
    summary.append("]");
    summary
}

/// A model identifier that is shown as it is neither is long nor looks like a
/// credential.
pub proof fn shown_models_are_harmless(model: Seq<char>)
    requires
        denied_model_text(Some(model)) == model,
        !has_part(model, "[redacted model: bytes="@),
    ensures
        encode_utf8(model).len() <= MAX_DENIED_MODEL_ID_BYTES,
        !looks_sensitive(model),
{
    let redacted = "[redacted model: bytes="@ + decimal(encode_utf8(model).len()) + ", hash="@
        + shown_hash(text_hash(model)) + "]"@;
    let mark = "[redacted model: bytes="@;
    assert(redacted.subrange(0, mark.len() as int) =~= mark);
    assert(crate::text::occurs_at(redacted, mark, 0));
}

// ---------------------------------------------------------------------------
// Choosing a profile
// ---------------------------------------------------------------------------

/// Why a profile was chosen.
#[derive(Clone, Copy, Debug, PartialEq, Eq, Structural)]
pub enum UpstreamRouteReason {
    MatchedModel,
    Default,
}

/// How the reasons for a choice are recorded.
pub struct RouteReasonLabels {
    pub matched_model: String,
    pub default: String,
}

/// How the reason for a choice is recorded.
pub open spec fn reason_text(reason: UpstreamRouteReason, labels: RouteReasonLabels) -> Seq<char> {
    match reason {
        UpstreamRouteReason::MatchedModel => labels.matched_model@,
        UpstreamRouteReason::Default => labels.default@,
    }
}

/// How the reason for a choice is recorded.
pub fn route_reason_text(reason: UpstreamRouteReason, labels: &RouteReasonLabels) -> (text: String)
    ensures
        text@ == reason_text(reason, *labels),
{
    match reason {
        UpstreamRouteReason::MatchedModel => labels.matched_model.clone(),
        UpstreamRouteReason::Default => labels.default.clone(),
    }
}

/// A chosen profile, by its name, and why it was chosen.
pub struct SelectedUpstreamProfile {
    pub profile: String,
    pub route_reason: UpstreamRouteReason,
}

/// What a model alias stands for, where the configuration can tell.
pub enum AliasTarget {
    /// A profile.
    Upstream { profile: String },
    /// A workflow, which runs before the default profile.
    Workflow { default_profile: String },
}

/// The refusal of a profile by a listener.
pub open spec fn denial(
    listener: ListenerConfig,
    profile: Seq<char>,
    model: Option<Seq<char>>,
    denied: ListenerUpstreamDenied,
) -> bool {
    &&& denied.listener_name@ == listener.name@
    &&& denied.listener_port == listener.port
    &&& denied.upstream_profile@ == profile
    &&& denied.model_id@ == denied_model_text(model)
}

fn deny(listener: &ListenerConfig, profile: &str, model: Option<&str>) -> (denied:
    ListenerUpstreamDenied)
    ensures
        denial(*listener, profile@, opt_str_chars(model), denied),
{
    ListenerUpstreamDenied {
        listener_name: listener.name.clone(),
        listener_port: listener.port,
        upstream_profile: profile.to_owned(),
        model_id: denied_model_id_summary(model),
    }
}

/// The profile that an alias leads to. An alias counts only where the model has a
/// name; the refusal of an alias shows that name.
pub open spec fn alias_choice(
    listener: ListenerConfig,
    model: Option<Seq<char>>,
    alias: Option<AliasTarget>,
    choice: Result<Option<SelectedUpstreamProfile>, ListenerUpstreamDenied>,
) -> bool {
    match alias {
        Some(AliasTarget::Upstream { profile }) if model_name(model) is Some => if listener_allows(
            listener,
            profile@,
        ) {
            &&& choice is Ok
            &&& choice->Ok_0 is Some
            &&& choice->Ok_0->Some_0.profile@ == profile@
            &&& choice->Ok_0->Some_0.route_reason == UpstreamRouteReason::MatchedModel
        } else {
            choice is Err && denial(listener, profile@, model_name(model), choice->Err_0)
        },
        Some(AliasTarget::Workflow { default_profile }) if model_name(model) is Some => {
            &&& choice is Ok
            &&& choice->Ok_0 is Some
            &&& choice->Ok_0->Some_0.profile@ == default_profile@
            &&& choice->Ok_0->Some_0.route_reason == UpstreamRouteReason::MatchedModel
        },
        _ => choice is Ok && choice->Ok_0 is None,
    }
}

/// Chooses the profile that an alias leads to, if the model is an alias.
pub fn select_profile_from_model_alias(
    listener: &ListenerConfig,
    model: Option<&str>,
    alias: Option<AliasTarget>,
) -> (choice: Result<Option<SelectedUpstreamProfile>, ListenerUpstreamDenied>)
    ensures
        alias_choice(*listener, opt_str_chars(model), alias, choice),
{
    let name = match normalized_model_id(model) {
        Some(name) => name,
        None => {
            return Ok(None);
        },
    };
    match alias {
        None => Ok(None),
        Some(AliasTarget::Upstream { profile }) => {
            if listener.allows_upstream(profile.as_str()) {
                Ok(
                    Some(
                        SelectedUpstreamProfile {
                            profile,
                            route_reason: UpstreamRouteReason::MatchedModel,
                        },
                    ),
                )
            } else {
                Err(deny(listener, profile.as_str(), Some(name.as_str())))
            }
        },
        Some(AliasTarget::Workflow { default_profile }) => Ok(
            Some(
                SelectedUpstreamProfile {
                    profile: default_profile,
                    route_reason: UpstreamRouteReason::MatchedModel,
                },
            ),
        ),
    }
}

/// The profile that serves a model: the one that an alias leads to, else the one
/// that the configuration selects, where the listener serves it.
pub open spec fn allowed_choice(
    listener: ListenerConfig,
    model: Option<Seq<char>>,
    alias: Option<AliasTarget>,
    selected: SelectedUpstreamProfile,
    choice: Result<SelectedUpstreamProfile, ListenerUpstreamDenied>,
) -> bool {
    if alias is Some && model_name(model) is Some {
        match choice {
            Ok(profile) => alias_choice(listener, model, alias, Ok(Some(profile))),
            Err(denied) => alias_choice(listener, model, alias, Err(denied)),
        }
    } else if listener_allows(listener, selected.profile@) {
        choice is Ok && choice->Ok_0 == selected
    } else {
        choice is Err && denial(listener, selected.profile@, model, choice->Err_0)
    }
}

/// Chooses the profile that serves a model. `alias` is what the model stands for
/// and `selected` what the configuration selects for it.
pub fn select_allowed_upstream_profile(
    listener: &ListenerConfig,
    model: Option<&str>,
    alias: Option<AliasTarget>,
    selected: SelectedUpstreamProfile,
) -> (choice: Result<SelectedUpstreamProfile, ListenerUpstreamDenied>)
    ensures
        allowed_choice(*listener, opt_str_chars(model), alias, selected, choice),
{
    match select_profile_from_model_alias(listener, model, alias) {
        Ok(Some(profile)) => {
            return Ok(profile);
        },
        Ok(None) => {},
        Err(denied) => {
            return Err(denied);
        },
    }
    if listener.allows_upstream(selected.profile.as_str()) {
        return Ok(selected);
    }
    Err(deny(listener, selected.profile.as_str(), model))
}

/// The profile of a request: for the list of models of a restricted listener its
/// first profile, where the configuration has it (`first_allowed`), else the one
/// that serves the model.
pub open spec fn request_choice(
    listener: ListenerConfig,
    method: Seq<char>,
    path: Seq<char>,
    first_allowed: Option<String>,
    model: Option<Seq<char>>,
    alias: Option<AliasTarget>,
    selected: SelectedUpstreamProfile,
    choice: Result<SelectedUpstreamProfile, ListenerUpstreamDenied>,
) -> bool {
    if method == "GET"@ && path == "/v1/models"@ && listener.allowed_upstreams is Some
        && listener.allowed_upstreams->Some_0.len() > 0 && first_allowed is Some {
        &&& choice is Ok
        &&& choice->Ok_0.profile == first_allowed->Some_0
        &&& choice->Ok_0.route_reason == UpstreamRouteReason::MatchedModel
    } else {
        allowed_choice(listener, model, alias, selected, choice)
    }
}

/// Chooses the profile of a request. The list of models of a restricted listener
/// comes from its first profile, where the configuration has it
/// (`first_allowed`).
pub fn select_profile_for_request(
    listener: &ListenerConfig,
    method: &str,
    path: &str,
    first_allowed: Option<String>,
    model: Option<&str>,
    alias: Option<AliasTarget>,
    selected: SelectedUpstreamProfile,
) -> (choice: Result<SelectedUpstreamProfile, ListenerUpstreamDenied>)
    ensures
        request_choice(
            *listener,
            method@,
            path@,
            first_allowed,
            opt_str_chars(model),
            alias,
            selected,
            choice,
        ),
{
    if is_control_plane_models_request(method, path) {
        match &listener.allowed_upstreams {
            Some(list) => {
                if list.len() > 0 {
                    match first_allowed {
                        Some(profile) => {
                            return Ok(
                                SelectedUpstreamProfile {
                                    profile,
                                    route_reason: UpstreamRouteReason::MatchedModel,
                                },
                            );
                        },
                        None => {},
                    }
                }
            },
            None => {},
        }
    }
    select_allowed_upstream_profile(listener, model, alias, selected)
}

/// Whether a list of models that a listener gives shows a model: a restricted
/// listener shows what it serves.
pub open spec fn shows_model(
    listener: ListenerConfig,
    model: Option<Seq<char>>,
    alias: Option<AliasTarget>,
    selected: SelectedUpstreamProfile,
) -> bool {
    listener.allowed_upstreams is None || match alias {
        Some(AliasTarget::Upstream { profile }) if model_name(model) is Some => listener_allows(
            listener,
            profile@,
        ),
        Some(AliasTarget::Workflow { .. }) if model_name(model) is Some => true,
        _ => listener_allows(listener, selected.profile@),
    }
}

/// Whether a list of models that a listener gives shows a model.
pub fn filter_models_body_for_listener(
    listener: &ListenerConfig,
    model: Option<&str>,
    alias: Option<AliasTarget>,
    selected: SelectedUpstreamProfile,
) -> (shows: bool)
    ensures
        shows == shows_model(*listener, opt_str_chars(model), alias, selected),
{
    if listener.allowed_upstreams.is_none() {
        return true;
    }
    match select_allowed_upstream_profile(listener, model, alias, selected) {
        Ok(_) => true,
        Err(_) => false,
    }
}

/// Whatever profile a model without an alias is served by, its listener serves
/// that profile.
pub proof fn served_profiles_are_allowed(
    listener: ListenerConfig,
    model: Option<Seq<char>>,
    selected: SelectedUpstreamProfile,
    choice: Result<SelectedUpstreamProfile, ListenerUpstreamDenied>,
)
    requires
        allowed_choice(listener, model, None, selected, choice),
        choice is Ok,
    ensures
        listener_allows(listener, choice->Ok_0.profile@),
{
}

/// The names of the profiles whose models a listener lists.
pub open spec fn listed_profiles(
    listener: ListenerConfig,
    known: Seq<Seq<char>>,
    default_profile: Seq<char>,
    others: Seq<Seq<char>>,
) -> Seq<Seq<char>> {
    match listener.allowed_upstreams {
        Some(list) => crate::text::chars_list(list@).filter(|name: Seq<char>| known.contains(name)),
        None => seq![default_profile] + others,
    }
}

/// The names of the profiles whose models a listener lists: those that it is
/// restricted to, where the configuration knows them; else the default profile
/// and all others.
pub fn listener_models_upstream_profiles(
    listener: &ListenerConfig,
    known: &Vec<String>,
    default_profile: &str,
    others: &Vec<String>,
) -> (names: Vec<String>)
    ensures
        crate::text::chars_list(names@) == listed_profiles(
            *listener,
            crate::text::chars_list(known@),
            default_profile@,
            crate::text::chars_list(others@),
        ),
{
    let mut names: Vec<String> = Vec::new();
    match &listener.allowed_upstreams {
        Some(list) => {
            let ghost all = crate::text::chars_list(list@);
            let ghost keep = |name: Seq<char>| crate::text::chars_list(known@).contains(name);
            let mut i: usize = 0;
            proof {
                reveal(Seq::filter);
                assert(crate::text::chars_list(names@) =~= all.take(0).filter(keep));
            }
            while i < list.len()
                invariant
                    i <= list.len(),
                    all == crate::text::chars_list(list@),
                    keep == (|name: Seq<char>|
                        crate::text::chars_list(known@).contains(name)),
                    crate::text::chars_list(names@) == all.take(i as int).filter(keep),
                decreases list.len() - i,
            {
                let ghost before = crate::text::chars_list(names@);
                proof {
                    reveal(Seq::filter);
                    assert(all.take(i + 1).drop_last() =~= all.take(i as int));
                    assert(all[i as int] == list[i as int]@);
                }
                match position_of(known, list[i].as_str()) {
                    Some(at) => {
                        assert(crate::text::chars_list(known@)[at as int] == list[i as int]@);
                        names.push(list[i].clone());
                        assert(crate::text::chars_list(names@) =~= before.push(list[i as int]@));
                    },
                    None => {
                        proof {
                            let wanted = list[i as int]@;
                            if crate::text::chars_list(known@).contains(wanted) {
                                let j = choose|j: int|
                                    0 <= j < known.len() && crate::text::chars_list(known@)[j]
                                        == wanted;
                                assert(known[j]@ == wanted);
                            }
                        }
                    },
                }
                i += 1;
            }
            assert(all.take(i as int) =~= all);
        },
        None => {
            names.push(default_profile.to_owned());
            let mut rest = clone_list(others);
            names.append(&mut rest);
            assert(crate::text::chars_list(names@) =~= seq![default_profile@]
                + crate::text::chars_list(others@));
        },
    }
    names
}

/// A listener with a list of upstreams serves those on the list and no other: a request
/// for another is denied, with the names of the listener and of the upstream. A listener
/// without a list serves every upstream.
pub proof fn listeners_serve_their_upstreams(
    listener: ListenerConfig,
    model: Option<Seq<char>>,
    selected: SelectedUpstreamProfile,
    choice: Result<SelectedUpstreamProfile, ListenerUpstreamDenied>,
    at: int,
)
    requires
        allowed_choice(listener, model, None, selected, choice),
    ensures
        listener.allowed_upstreams is None ==> choice == Ok::<
            SelectedUpstreamProfile,
            ListenerUpstreamDenied,
        >(selected),
        listener.allowed_upstreams matches Some(list) ==> {
            &&& 0 <= at < list.len() && list[at]@ == selected.profile@ ==> choice == Ok::<
                SelectedUpstreamProfile,
                ListenerUpstreamDenied,
            >(selected)
            &&& (forall|i: int|
                0 <= i < list.len() ==> (#[trigger] list[i])@ != selected.profile@) ==> (
            choice matches Err(denied) && denied.listener_name@ == listener.name@
                && denied.listener_port == listener.port && denied.upstream_profile@
                == selected.profile@)
        },
{
}

/// A model that stands for an upstream goes to that upstream, where the listener serves
/// it, and a model that stands for a workflow to the upstream of the workflow.
pub proof fn aliases_lead_to_their_upstream(
    listener: ListenerConfig,
    model: Seq<char>,
    profile: String,
    selected: SelectedUpstreamProfile,
    upstream: Result<SelectedUpstreamProfile, ListenerUpstreamDenied>,
    workflow: Result<SelectedUpstreamProfile, ListenerUpstreamDenied>,
)
    requires
        crate::text::trimmed(model).len() > 0,
        allowed_choice(
            listener,
            Some(model),
            Some(AliasTarget::Upstream { profile }),
            selected,
            upstream,
        ),
        allowed_choice(
            listener,
            Some(model),
            Some(AliasTarget::Workflow { default_profile: profile }),
            selected,
            workflow,
        ),
    ensures
        upstream is Ok <==> listener_allows(listener, profile@),
        upstream matches Ok(chosen) ==> chosen.profile@ == profile@
            && chosen.route_reason is MatchedModel,
        upstream matches Err(denied) ==> denied.upstream_profile@ == profile@,
        workflow matches Ok(chosen) && chosen.profile@ == profile@,
{
}

/// The models of a restricted listener are asked of the first upstream that it serves;
/// every other request goes to the upstream that was selected for it.
pub proof fn model_lists_come_from_allowed_upstreams(
    listener: ListenerConfig,
    method: Seq<char>,
    path: Seq<char>,
    first_allowed: String,
    selected: SelectedUpstreamProfile,
    choice: Result<SelectedUpstreamProfile, ListenerUpstreamDenied>,
)
    requires
        request_choice(
            listener,
            method,
            path,
            Some(first_allowed),
            None,
            None,
            selected,
            choice,
        ),
    ensures
        method == "GET"@ && path == "/v1/models"@ && (listener.allowed_upstreams matches Some(list)
            && list.len() > 0) ==> (choice matches Ok(chosen) && chosen.profile == first_allowed),
        method != "GET"@ || path != "/v1/models"@ || listener.allowed_upstreams is None ==> (
        choice matches Ok(chosen) ==> chosen == selected),
{
}

/// A text that holds a word for a secret counts as sensitive, in capitals or not, and
/// wherever the word stands.
pub proof fn secrets_are_sensitive(before: Seq<char>, after: Seq<char>)
    ensures
        looks_sensitive(before + "bearer "@ + after),
        looks_sensitive(before + "Bearer "@ + after),
        looks_sensitive(before + "api_key"@ + after),
        looks_sensitive(before + "api-key"@ + after),
        looks_sensitive(before + "authorization"@ + after),
        looks_sensitive(before + "Authorization"@ + after),
        looks_sensitive(before + "sk-"@ + after),
        looks_sensitive(before + "SK-"@ + after),
{
    reveal_strlit("bearer ");
    reveal_strlit("Bearer ");
    reveal_strlit("api_key");
    reveal_strlit("api-key");
    reveal_strlit("authorization");
    reveal_strlit("Authorization");
    reveal_strlit("sk-");
    reveal_strlit("SK-");
    assert(lowered("bearer "@) =~= "bearer "@);
    assert(lowered("Bearer "@) =~= "bearer "@);
    assert(lowered("api_key"@) =~= "api_key"@);
    assert(lowered("api-key"@) =~= "api-key"@);
    assert(lowered("authorization"@) =~= "authorization"@);
    assert(lowered("Authorization"@) =~= "authorization"@);
    assert(lowered("sk-"@) =~= "sk-"@);
    assert(lowered("SK-"@) =~= "sk-"@);
    sensitive_parts_stay(before, "bearer "@, after);
    sensitive_parts_stay(before, "Bearer "@, after);
    sensitive_parts_stay(before, "api_key"@, after);
    sensitive_parts_stay(before, "api-key"@, after);
    sensitive_parts_stay(before, "authorization"@, after);
    sensitive_parts_stay(before, "Authorization"@, after);
    sensitive_parts_stay(before, "sk-"@, after);
    sensitive_parts_stay(before, "SK-"@, after);
}

proof fn sensitive_parts_stay(before: Seq<char>, part: Seq<char>, after: Seq<char>)
    ensures
        has_part(lowered(before + part + after), lowered(part)),
{
    assert(lowered(before + part + after) =~= lowered(before) + lowered(part) + lowered(after));
    crate::text::prefixes_and_parts_are_found(lowered(before), lowered(part), lowered(after));
}

/// The name of a denied model is shown where it is short and harmless, and stays hidden
/// otherwise.
pub proof fn denied_models_are_shown_or_hidden(model: Seq<char>)
    ensures
        encode_utf8(model).len() <= 128 && !looks_sensitive(model) ==> denied_model_text(
            Some(model),
        ) == model,
        encode_utf8(model).len() > 128 || looks_sensitive(model) ==> crate::text::has_prefix(
            denied_model_text(Some(model)),
            "[redacted model: bytes="@ + decimal(encode_utf8(model).len()) + ", hash=siphash64:"@,
        ),
{
    reveal_strlit(", hash=");
    reveal_strlit("siphash64:");
    reveal_strlit(", hash=siphash64:");
    let start = "[redacted model: bytes="@ + decimal(encode_utf8(model).len());
    let whole = start + ", hash="@ + shown_hash(text_hash(model)) + "]"@;
    assert(", hash="@ + "siphash64:"@ =~= ", hash=siphash64:"@);
    assert(whole.take((start + ", hash=siphash64:"@).len() as int) =~= start
        + ", hash=siphash64:"@);
}

proof fn filtered_members(
    names: Seq<Seq<char>>,
    wanted: spec_fn(Seq<char>) -> bool,
    name: Seq<char>,
)
    ensures
        names.filter(wanted).contains(name) <==> names.contains(name) && wanted(name),
    decreases names.len(),
{
    reveal(Seq::filter);
    if names.len() > 0 {
        let before = names.drop_last();
        let kept = before.filter(wanted);
        filtered_members(before, wanted, name);
        if before.contains(name) {
            let i = choose|i: int| 0 <= i < before.len() && before[i] == name;
            assert(names[i] == name);
        }
        if names.contains(name) && name != names.last() {
            let i = choose|i: int| 0 <= i < names.len() && names[i] == name;
            assert(before[i] == name);
        }
        if wanted(names.last()) {
            if kept.contains(name) {
                let i = choose|i: int| 0 <= i < kept.len() && kept[i] == name;
                assert(kept.push(names.last())[i] == name);
            }
            if kept.push(names.last()).contains(name) && name != names.last() {
                let i = choose|i: int|
                    0 <= i < kept.push(names.last()).len() && kept.push(names.last())[i] == name;
                assert(kept[i] == name);
            }
            assert(kept.push(names.last())[kept.len() as int] == names.last());
        }
        assert(names[names.len() - 1] == names.last());
    }
}

/// The models of a listener come from the upstreams on its list that exist, and without
/// a list from the default upstream first and the others after it.
pub proof fn listed_profiles_are_served(
    listener: ListenerConfig,
    known: Seq<Seq<char>>,
    default_profile: Seq<char>,
    others: Seq<Seq<char>>,
    name: Seq<char>,
)
    ensures
        listener.allowed_upstreams matches Some(list) ==> (listed_profiles(
            listener,
            known,
            default_profile,
            others,
        ).contains(name) <==> listener_allows(listener, name) && known.contains(name)),
        listener.allowed_upstreams is None ==> {
            let names = listed_profiles(listener, known, default_profile, others);
            &&& names.len() == others.len() + 1
            &&& names[0] == default_profile
            &&& forall|i: int| 0 <= i < others.len() ==> names[i + 1] == #[trigger] others[i]
        },
{
    match listener.allowed_upstreams {
        Some(list) => {
            let all = crate::text::chars_list(list@);
            let wanted = |name: Seq<char>| known.contains(name);
            filtered_members(all, wanted, name);
            if all.contains(name) {
                let j = choose|j: int| 0 <= j < all.len() && all[j] == name;
                assert(list[j]@ == name);
            }
            if listener_allows(listener, name) {
                let j = choose|j: int| 0 <= j < list.len() && (#[trigger] list[j])@ == name;
                assert(all[j] == name);
            }
        },
        None => {},
    }
}

/// A restricted listener shows the models of the upstreams it serves, and those of
/// workflows; an unrestricted one shows all.
pub proof fn models_are_shown_where_served(
    listener: ListenerConfig,
    model: Seq<char>,
    profile: String,
    selected: SelectedUpstreamProfile,
)
    requires
        crate::text::trimmed(model).len() > 0,
    ensures
        listener.allowed_upstreams is None ==> shows_model(listener, Some(model), None, selected),
        listener.allowed_upstreams is Some ==> (shows_model(listener, Some(model), None, selected)
            <==> listener_allows(listener, selected.profile@)),
        listener.allowed_upstreams is Some ==> (shows_model(
            listener,
            Some(model),
            Some(AliasTarget::Upstream { profile }),
            selected,
        ) <==> listener_allows(listener, profile@)),
        shows_model(
            listener,
            Some(model),
            Some(AliasTarget::Workflow { default_profile: profile }),
            selected,
        ),
{
}

/// What is recorded of the listener of a request is the listener.
pub proof fn listeners_are_recorded(
    bindings: Bindings,
    listener: ListenerConfig,
)
    ensures
        ({
            let told = with_listener(bindings, listener);
            &&& told.contains_key("listener_name"@) && told["listener_name"@] == listener.name@
            &&& told.contains_key("listener_bind_host"@) && told["listener_bind_host"@] == listener.bind_host@
            &&& told.contains_key("listener_port"@) && told["listener_port"@] == decimal(listener.port as nat)
            &&& told.contains_key("listener_restricted"@) && told["listener_restricted"@] == if listener.allowed_upstreams is Some {
                "true"@
            } else {
                "false"@
            }
        }),
{
    reveal_strlit("listener_name");
    reveal_strlit("listener_bind_host");
    reveal_strlit("listener_port");
    reveal_strlit("listener_restricted");
    assert("listener_name"@.len() == 13);
    assert("listener_bind_host"@.len() == 18);
    assert("listener_port"@.len() == 13);
    assert("listener_restricted"@.len() == 19);
    assert("listener_name"@[9] != "listener_port"@[9]);
}

/// What is recorded of the upstream of a request says which it is, why it was chosen and
/// what it allows.
pub proof fn upstreams_are_recorded(
    bindings: Bindings,
    profile: UpstreamProfileConfig,
    route_reason: Seq<char>,
)
    ensures
        ({
            let told = with_upstream_profile(bindings, profile, route_reason);
            &&& told.contains_key("upstream_profile"@) && told["upstream_profile"@] == profile.name@
            &&& told.contains_key("upstream_route_reason"@) && told["upstream_route_reason"@] == route_reason
            &&& told.contains_key("upstream_request_timeout_ms"@) && told["upstream_request_timeout_ms"@] == decimal(profile.request_timeout_ms as nat)
            &&& told.contains_key("upstream_context_window_tokens"@) && told["upstream_context_window_tokens"@] == match profile.context_window_tokens {
                Some(tokens) => decimal(tokens as nat),
                None => "unknown"@,
            }
            &&& told.contains_key("upstream_input_token_safety_margin"@) && told["upstream_input_token_safety_margin"@] == decimal(profile.input_token_safety_margin as nat)
        }),
{
    reveal_strlit("upstream_profile");
    reveal_strlit("upstream_route_reason");
    reveal_strlit("upstream_request_timeout_ms");
    reveal_strlit("upstream_context_window_tokens");
    reveal_strlit("upstream_input_token_safety_margin");
    reveal_strlit("upstream_context_window_configured");
    assert("upstream_profile"@.len() == 16);
    assert("upstream_route_reason"@.len() == 21);
    assert("upstream_request_timeout_ms"@.len() == 27);
    assert("upstream_context_window_tokens"@.len() == 30);
    assert("upstream_input_token_safety_margin"@.len() == 34);
    assert("upstream_context_window_configured"@.len() == 34);
    assert("upstream_input_token_safety_margin"@[9] != "upstream_context_window_configured"@[9]);
}

/// A model is named without the white space around it; a blank name is none.
pub proof fn models_are_named_without_blanks(name: Seq<char>)
    ensures
        model_name(None) is None,
        trimmed(name).len() == 0 ==> model_name(Some(name)) is None,
        trimmed(name).len() > 0 ==> model_name(Some(name)) == Some(trimmed(name)),
        model_name(Some(name)) matches Some(named) ==> named.len() > 0 && !crate::text::is_space(
            named[0],
        ) && !crate::text::is_space(named.last()),
{
    crate::text::trimming_takes_white_space_only(name);
}

/// A hash is shown under the name of its function, in sixteen digits.
pub proof fn hashes_are_shown_in_full(hash: u64)
    ensures
        crate::text::has_prefix(shown_hash(hash), "siphash64:"@),
        shown_hash(hash).skip("siphash64:"@.len() as int) == hexadecimal(hash as nat, 16),
{
    crate::text::prefixes_and_parts_are_found(
        Seq::empty(),
        "siphash64:"@,
        hexadecimal(hash as nat, 16),
    );
    assert(shown_hash(hash).skip("siphash64:"@.len() as int) =~= hexadecimal(hash as nat, 16));
}

/// A denial names the listener that denies, the profile and the model.
pub proof fn denials_name_what_is_denied(
    listener: ListenerConfig,
    profile: Seq<char>,
    model: Option<Seq<char>>,
    denied: ListenerUpstreamDenied,
)
    requires
        denial(listener, profile, model, denied),
    ensures
        denied.listener_name@ == listener.name@,
        denied.listener_port == listener.port,
        denied.upstream_profile@ == profile,
        denied.model_id@ == denied_model_text(model),
{
}

/// The models of a listener that is held to some upstreams come from the first of them;
/// any other request is routed as it is allowed.
pub proof fn model_lists_come_from_the_first_upstream(
    listener: ListenerConfig,
    method: Seq<char>,
    path: Seq<char>,
    first: String,
    model: Option<Seq<char>>,
    alias: Option<AliasTarget>,
    selected: SelectedUpstreamProfile,
    choice: Result<SelectedUpstreamProfile, ListenerUpstreamDenied>,
)
    requires
        request_choice(listener, method, path, Some(first), model, alias, selected, choice),
    ensures
        method == "GET"@ && path == "/v1/models"@ && (listener.allowed_upstreams matches Some(list)
            && list.len() > 0) ==> (choice matches Ok(chosen) && chosen.profile == first
            && chosen.route_reason is MatchedModel),
        method != "GET"@ || path != "/v1/models"@ ==> allowed_choice(
            listener,
            model,
            alias,
            selected,
            choice,
        ),
        listener.allowed_upstreams is None ==> allowed_choice(
            listener,
            model,
            alias,
            selected,
            choice,
        ),
{
}

} // verus!
