//! Who calls: virtual keys, admin tokens and the profiles of callers.

use crate::errors::{bare_error, unauthorized_bindings, ErrorKind, ProxyError, ProxyErrorModel};
use crate::headers::{header_text_of, HeaderModel, Headers};
use crate::metadata::{Bindings, Metadata};
use crate::profiles::{denied_model_id_summary, denied_model_text, model_name, normalized_model_id};
use crate::text::{
    decimal, decimal_text, has_prefix, joined, opt_chars, opt_str_chars, same_bytes_same_text,
    strip_prefix, trim, trimmed,
};
use vstd::prelude::*;

verus! {

/// The header field of a virtual key.
pub const X_VIRTUAL_KEY_HEADER: &'static str = "x-virtual-key";

// ---------------------------------------------------------------------------
// Comparing secrets
// ---------------------------------------------------------------------------

/// The byte at a place, zero behind the end.
pub open spec fn byte_or_zero(bytes: Seq<u8>, at: int) -> u8 {
    if 0 <= at < bytes.len() {
        bytes[at]
    } else {
        0
    }
}

fn byte_at(bytes: &[u8], at: usize) -> (byte: u8)
    ensures
        byte == byte_or_zero(bytes@, at as int),
{
    if at < bytes.len() {
        bytes[at]
    } else {
        0
    }
}

/// Compares the bytes of `left` and `right` up to `count`, looking at every byte
/// whatever the outcome.
fn differences(left: &[u8], right: &[u8], count: usize) -> (diff: u64)
    ensures
        (diff == 0) == (left@.len() == right@.len() && forall|i: int|
            0 <= i < count ==> #[trigger] byte_or_zero(left@, i) == byte_or_zero(right@, i)),
{
    let left_len: u64 = left.len() as u64;
    let right_len: u64 = right.len() as u64;
    let mut diff: u64 = left_len ^ right_len;
    assert((left_len ^ right_len == 0) == (left_len == right_len)) by (bit_vector);
    let mut index: usize = 0;
    while index < count
        invariant
            index <= count,
            (diff == 0) == (left@.len() == right@.len() && forall|i: int|
                0 <= i < index ==> #[trigger] byte_or_zero(left@, i) == byte_or_zero(right@, i)),
        decreases count - index,
    {
        let left_byte: u8 = byte_at(left, index);
        let right_byte: u8 = byte_at(right, index);
        let step: u64 = (left_byte ^ right_byte) as u64;
        assert((left_byte ^ right_byte == 0) == (left_byte == right_byte)) by (bit_vector);
        assert((diff | step == 0) == (diff == 0 && step == 0)) by (bit_vector);
        diff = diff | step;
        index += 1;
    }
    diff
}

/// Whether two byte strings are equal. The number of bytes that are looked at
/// depends on the lengths alone.
pub fn constant_time_eq(left: &[u8], right: &[u8]) -> (equal: bool)
    ensures
        equal == (left@ == right@),
{
    let max_len: usize = if left.len() >= right.len() {
        left.len()
    } else {
        right.len()
    };
    let diff: u64 = differences(left, right, max_len);
    proof {
        if diff == 0 {
            assert forall|i: int| 0 <= i < left@.len() implies left@[i] == right@[i] by {
                assert(byte_or_zero(left@, i) == byte_or_zero(right@, i));
            }
            assert(left@ =~= right@);
        }
    }
    diff == 0
}

/// Whether a token is the expected one. The number of bytes that are looked at
/// depends on the expected token alone.
pub fn admin_token_matches(candidate: &str, expected: &str) -> (matches: bool)
    ensures
        matches == (candidate@ == expected@),
{
    let candidate_bytes = candidate.as_bytes();
    let expected_bytes = expected.as_bytes();
    let diff: u64 = differences(candidate_bytes, expected_bytes, expected_bytes.len());
    proof {
        if diff == 0 {
            assert forall|i: int| 0 <= i < candidate_bytes@.len() implies candidate_bytes@[i]
                == expected_bytes@[i] by {
                assert(byte_or_zero(candidate_bytes@, i) == byte_or_zero(expected_bytes@, i));
            }
            assert(candidate_bytes@ =~= expected_bytes@);
        }
        same_bytes_same_text(candidate@, expected@);
    }
    diff == 0
}

/// The token of an `Authorization` field, where it has the bearer form exactly.
pub open spec fn exact_bearer(headers: Seq<HeaderModel>) -> Option<Seq<char>> {
    match header_text_of(headers, "authorization"@) {
        Some(text) if has_prefix(text, "Bearer "@) => Some(text.skip("Bearer "@.len() as int)),
        _ => None,
    }
}

/// Whether a request may see the debug summary: always where no token is set,
/// else with the token as bearer or in the admin field.
pub open spec fn summary_allowed(headers: Seq<HeaderModel>, token: Option<Seq<char>>) -> bool {
    match token {
        Some(token) if token.len() > 0 => exact_bearer(headers) == Some(token) || header_text_of(
            headers,
            "x-admin-token"@,
        ) == Some(token),
        _ => true,
    }
}

/// Whether a request may see the debug summary.
pub fn debug_summary_authorized(headers: &Headers, token: Option<&str>) -> (authorized: bool)
    ensures
        authorized == summary_allowed(headers@, opt_str_chars(token)),
{
    let token = match token {
        Some(token) if !token.is_empty() => token,
        _ => {
            return true;
        },
    };
    let bearer_matches = match headers.get_text("authorization") {
        Some(text) => match strip_prefix(text.as_str(), "Bearer ") {
            Some(candidate) => admin_token_matches(candidate.as_str(), token),
            None => false,
        },
        None => false,
    };
    let header_matches = match headers.get_text("x-admin-token") {
        Some(candidate) => admin_token_matches(candidate.as_str(), token),
        None => false,
    };
    bearer_matches || header_matches
}

// ---------------------------------------------------------------------------
// Virtual keys
// ---------------------------------------------------------------------------

/// A text without white space around it, where something is left.
pub open spec fn nonblank(text: Option<Seq<char>>) -> Option<Seq<char>> {
    match text {
        Some(text) if trimmed(text).len() > 0 => Some(trimmed(text)),
        _ => None,
    }
}

/// The text of a header field without white space around it.
pub fn header_trimmed(headers: &Headers, name: &str) -> (text: Option<String>)
    ensures
        opt_chars(text) == nonblank(header_text_of(headers@, name@)),
{
    match headers.get_text(name) {
        Some(text) => {
            let text = trim(text.as_str());
            if text.as_str().is_empty() {
                None
            } else {
                Some(text)
            }
        },
        None => None,
    }
}

/// What follows the bearer scheme in an `Authorization` field.
pub open spec fn bearer_rest(value: Seq<char>) -> Option<Seq<char>> {
    if has_prefix(value, "Bearer "@) {
        Some(value.skip("Bearer "@.len() as int))
    } else if has_prefix(value, "bearer "@) {
        Some(value.skip("bearer "@.len() as int))
    } else {
        None
    }
}

/// The bearer token of a request.
pub open spec fn bearer_of(headers: Seq<HeaderModel>) -> Option<Seq<char>> {
    match nonblank(header_text_of(headers, "authorization"@)) {
        Some(value) => nonblank(bearer_rest(value)),
        None => None,
    }
}

/// The bearer token of a request.
pub fn bearer_token(headers: &Headers) -> (token: Option<String>)
    ensures
        opt_chars(token) == bearer_of(headers@),
{
    let value = match header_trimmed(headers, "authorization") {
        Some(value) => value,
        None => {
            return None;
        },
    };
    let rest = match strip_prefix(value.as_str(), "Bearer ") {
        Some(rest) => Some(rest),
        None => strip_prefix(value.as_str(), "bearer "),
    };
    match rest {
        Some(rest) => {
            let token = trim(rest.as_str());
            if token.as_str().is_empty() {
                None
            } else {
                Some(token)
            }
        },
        None => None,
    }
}

/// The virtual key of a request: its own field comes before the bearer token.
pub open spec fn virtual_key_of(headers: Seq<HeaderModel>) -> Option<Seq<char>> {
    match nonblank(header_text_of(headers, X_VIRTUAL_KEY_HEADER@)) {
        Some(key) => Some(key),
        None => bearer_of(headers),
    }
}

/// The virtual key of a request.
pub fn extract_virtual_key(headers: &Headers) -> (key: Option<String>)
    ensures
        opt_chars(key) == virtual_key_of(headers@),
{
    match header_trimmed(headers, X_VIRTUAL_KEY_HEADER) {
        Some(key) => Some(key),
        None => bearer_token(headers),
    }
}

/// The name of the profile that a key is configured for; of several entries of
/// one key the last counts.
pub open spec fn profile_of_key(keys: Seq<(String, String)>, key: Seq<char>) -> Option<Seq<char>>
    decreases keys.len(),
{
    if keys.len() == 0 {
        None
    } else if keys.last().0@ == key {
        Some(keys.last().1@)
    } else {
        profile_of_key(keys.drop_last(), key)
    }
}

/// The name of the profile that a key is configured for. Every configured key is
/// looked at, whether one has been found or not.
pub fn virtual_key_profile_name(keys: &Vec<(String, String)>, virtual_key: &str) -> (profile:
    Option<String>)
    ensures
        opt_chars(profile) == profile_of_key(keys@, virtual_key@),
{
    let mut selected: Option<String> = None;
    let mut i: usize = 0;
    while i < keys.len()
        invariant
            i <= keys.len(),
            opt_chars(selected) == profile_of_key(keys@.take(i as int), virtual_key@),
        decreases keys.len() - i,
    {
        assert(keys@.take(i + 1).drop_last() =~= keys@.take(i as int));
        proof {
            same_bytes_same_text(keys[i as int].0@, virtual_key@);
        }
        if constant_time_eq(keys[i].0.as_str().as_bytes(), virtual_key.as_bytes()) {
            selected = Some(keys[i].1.clone());
        }
        i += 1;
    }
    assert(keys@.take(i as int) =~= keys@);
    selected
}

/// How the profile of a caller was found.
#[derive(Clone, Copy, Debug, PartialEq, Eq, Structural)]
pub enum CallerProfileResolution {
    VirtualKeyMatched,
    DisabledDefault,
    SingleProfileDefault,
    UnknownUseDefault,
}

impl CallerProfileResolution {
    /// The label of a resolution.
    pub open spec fn label(self) -> Seq<char> {
        match self {
            CallerProfileResolution::VirtualKeyMatched => "matched"@,
            CallerProfileResolution::DisabledDefault => "disabled_default"@,
            CallerProfileResolution::SingleProfileDefault => "single_profile_default"@,
            CallerProfileResolution::UnknownUseDefault => "unknown_use_default"@,
        }
    }

    /// The label of a resolution.
    pub fn as_str(self) -> (label: &'static str)
        ensures
            label@ == self.label(),
    {
        match self {
            CallerProfileResolution::VirtualKeyMatched => "matched",
            CallerProfileResolution::DisabledDefault => "disabled_default",
            CallerProfileResolution::SingleProfileDefault => "single_profile_default",
            CallerProfileResolution::UnknownUseDefault => "unknown_use_default",
        }
    }
}

/// What is done with an unknown key.
#[derive(Clone, Copy, Debug, PartialEq, Eq, Structural)]
pub enum UnknownKeyPolicy {
    UseDefaultProfile,
    FailClosed,
}

/// The settings that decide whose profile a request runs under.
pub struct CallerSettings {
    pub virtual_keys_enabled: bool,
    pub keys: Vec<(String, String)>,
    pub unknown_key_policy: UnknownKeyPolicy,
    /// The name of the profile that is used where no other is.
    pub default_profile: String,
    /// The names of the configured profiles.
    pub profiles: Vec<String>,
}

/// The profile of a caller.
pub struct ResolvedCallerProfile {
    pub name: String,
    pub resolution: CallerProfileResolution,
    pub enforce_policy: bool,
}

/// Whether a profile is configured.
pub open spec fn has_profile(settings: CallerSettings, name: Seq<char>) -> bool {
    exists|i: int| 0 <= i < settings.profiles.len() && (#[trigger] settings.profiles[i])@ == name
}

/// Whether `profile` has the given name, resolution and enforcement.
pub open spec fn is_profile(
    profile: ResolvedCallerProfile,
    name: Seq<char>,
    resolution: CallerProfileResolution,
    enforce_policy: bool,
) -> bool {
    profile.name@ == name && profile.resolution == resolution && profile.enforce_policy
        == enforce_policy
}

/// The profile that a request runs under. A key that no configured profile
/// belongs to counts as unknown; a request without a key may fall back to the
/// only profile there is.
pub open spec fn caller_choice(
    settings: CallerSettings,
    key: Option<Seq<char>>,
    choice: Result<ResolvedCallerProfile, ProxyErrorModel>,
) -> bool {
    let matched = match key {
        Some(key) => profile_of_key(settings.keys@, key),
        None => None,
    };
    let enforce = settings.profiles.len() > 0;
    if !settings.virtual_keys_enabled {
        choice is Ok && is_profile(
            choice->Ok_0,
            settings.default_profile@,
            CallerProfileResolution::DisabledDefault,
            enforce,
        )
    } else if matched is Some && has_profile(settings, matched->Some_0) {
        choice is Ok && is_profile(
            choice->Ok_0,
            matched->Some_0,
            CallerProfileResolution::VirtualKeyMatched,
            enforce,
        )
    } else if key is None && settings.profiles.len() == 1 {
        choice is Ok && is_profile(
            choice->Ok_0,
            settings.profiles[0]@,
            CallerProfileResolution::SingleProfileDefault,
            true,
        )
    } else if settings.unknown_key_policy is UseDefaultProfile {
        choice is Ok && is_profile(
            choice->Ok_0,
            settings.default_profile@,
            CallerProfileResolution::UnknownUseDefault,
            enforce,
        )
    } else {
        choice is Err && choice->Err_0 == (ProxyErrorModel {
            request_metadata: Some(unauthorized_bindings()),
            ..bare_error(ErrorKind::VirtualKeyUnauthorized)
        })
    }
}

/// The meaning of a choice of profile.
pub open spec fn choice_model(choice: Result<ResolvedCallerProfile, ProxyError>) -> Result<
    ResolvedCallerProfile,
    ProxyErrorModel,
> {
    match choice {
        Ok(profile) => Ok(profile),
        Err(error) => Err(error@),
    }
}

/// The default profile.
pub fn default_caller_profile(settings: &CallerSettings, resolution: CallerProfileResolution) -> (
    profile: ResolvedCallerProfile)
    ensures
        is_profile(profile, settings.default_profile@, resolution, settings.profiles.len() > 0),
{
    ResolvedCallerProfile {
        name: settings.default_profile.clone(),
        resolution,
        enforce_policy: settings.profiles.len() > 0,
    }
}

/// Finds the profile that a request runs under, by its virtual key.
pub fn resolve_caller_profile(settings: &CallerSettings, headers: &Headers) -> (choice: Result<
    ResolvedCallerProfile,
    ProxyError,
>)
    ensures
        caller_choice(*settings, virtual_key_of(headers@), choice_model(choice)),
{
    if !settings.virtual_keys_enabled {
        return Ok(default_caller_profile(settings, CallerProfileResolution::DisabledDefault));
    }
    let virtual_key = extract_virtual_key(headers);
    match &virtual_key {
        Some(key) => match virtual_key_profile_name(&settings.keys, key.as_str()) {
            Some(name) => {
                match crate::text::position_of(&settings.profiles, name.as_str()) {
                    Some(_) => {
                        return Ok(
                            ResolvedCallerProfile {
                                name,
                                resolution: CallerProfileResolution::VirtualKeyMatched,
                                enforce_policy: settings.profiles.len() > 0,
                            },
                        );
                    },
                    None => {},
                }
            },
            None => {},
        },
        None => {
            if settings.profiles.len() == 1 {
                return Ok(
                    ResolvedCallerProfile {
                        name: settings.profiles[0].clone(),
                        resolution: CallerProfileResolution::SingleProfileDefault,
                        enforce_policy: true,
                    },
                );
            }
        },
    }
    match settings.unknown_key_policy {
        UnknownKeyPolicy::UseDefaultProfile => Ok(
            default_caller_profile(settings, CallerProfileResolution::UnknownUseDefault),
        ),
        UnknownKeyPolicy::FailClosed => Err(ProxyError::virtual_key_unauthorized()),
    }
}

/// With keys required and unknown keys refused, only a request with a key that a
/// configured profile belongs to is let in, wherever several profiles (or none)
/// are configured.
pub proof fn unknown_keys_are_refused(
    settings: CallerSettings,
    key: Option<Seq<char>>,
    choice: Result<ResolvedCallerProfile, ProxyErrorModel>,
)
    requires
        caller_choice(settings, key, choice),
        settings.virtual_keys_enabled,
        settings.unknown_key_policy is FailClosed,
        settings.profiles.len() != 1,
        choice is Ok,
    ensures
        key is Some,
        profile_of_key(settings.keys@, key->Some_0) is Some,
        has_profile(settings, profile_of_key(settings.keys@, key->Some_0)->Some_0),
        choice->Ok_0.name@ == profile_of_key(settings.keys@, key->Some_0)->Some_0,
{
}

/// The bindings with the profile of a caller recorded.
pub open spec fn with_caller_profile(bindings: Bindings, profile: ResolvedCallerProfile) -> Bindings {
    bindings.insert("caller_profile"@, profile.name@).insert(
        "virtual_key_resolution"@,
        profile.resolution.label(),
    )
}

/// Records the profile of a caller.
pub fn add_caller_profile_metadata(
    request_metadata: &mut Metadata,
    caller_profile: &ResolvedCallerProfile,
)
    ensures
        final(request_metadata)@ == with_caller_profile(old(request_metadata)@, *caller_profile),
{
    request_metadata.set("caller_profile", caller_profile.name.as_str());
    request_metadata.set("virtual_key_resolution", caller_profile.resolution.as_str());
}

// ---------------------------------------------------------------------------
// Policies and budgets
// ---------------------------------------------------------------------------

/// Why the policy of a profile blocks a request.
pub enum BlockReason {
    ModelNotAllowed { model: String },
    DailyLimitExceeded { limit: u64 },
    KindMismatch,
}

/// The text of a block.
pub open spec fn block_text(reason: BlockReason) -> Seq<char> {
    match reason {
        BlockReason::ModelNotAllowed { model } => "model not allowed: "@ + denied_model_text(
            Some(model@),
        ),
        BlockReason::DailyLimitExceeded { limit } => "daily request limit exceeded: limit="@
            + decimal(limit as nat),
        BlockReason::KindMismatch => "profile kind mismatch"@,
    }
}

/// The text of a block.
pub fn profile_block_reason_message(reason: &BlockReason) -> (message: String)
    ensures
        message@ == block_text(*reason),
{
    match reason {
        BlockReason::ModelNotAllowed { model } => {
            let summary = denied_model_id_summary(Some(model.as_str()));
            joined("model not allowed: ", summary.as_str())
        },
        BlockReason::DailyLimitExceeded { limit } => joined(
            "daily request limit exceeded: limit=",
            decimal_text(*limit).as_str(),
        ),
        BlockReason::KindMismatch => "profile kind mismatch".to_owned(),
    }
}

/// Whether an error says that a profile's policy blocks a request.
pub open spec fn blocked_by(kind: ErrorKind, block: BlockReason) -> bool {
    match kind {
        ErrorKind::GuardBlocked { reason } => reason@ == "caller profile blocked request: "@
            + block_text(block),
        _ => false,
    }
}

/// Whether a request is held to the policy of its caller's profile: policies are
/// enforced, and the request names a model.
pub fn policy_applies(caller_profile: &ResolvedCallerProfile, model_id: Option<&str>) -> (applies:
    Option<String>)
    ensures
        opt_chars(applies) == if caller_profile.enforce_policy {
            model_name(opt_str_chars(model_id))
        } else {
            None
        },
{
    if !caller_profile.enforce_policy {
        return None;
    }
    normalized_model_id(model_id)
}

/// Holds a request to the policy of its caller's profile. `verdict` is why the
/// policy blocks the model, if it does.
pub fn enforce_caller_profile_policy(
    caller_profile: &ResolvedCallerProfile,
    model_id: Option<&str>,
    verdict: Option<BlockReason>,
) -> (checked: Result<(), ProxyError>)
    ensures
        match checked {
            Ok(_) => !caller_profile.enforce_policy || model_name(opt_str_chars(model_id)) is None
                || verdict is None,
            Err(error) => {
                &&& caller_profile.enforce_policy
                &&& model_name(opt_str_chars(model_id)) is Some
                &&& verdict is Some
                &&& blocked_by(error.kind, verdict->Some_0)
                &&& error@ == bare_error(error.kind)
            },
        },
{
    match policy_applies(caller_profile, model_id) {
        Some(_) => {},
        None => {
            return Ok(());
        },
    }
    match verdict {
        None => Ok(()),
        Some(reason) => {
            let message = profile_block_reason_message(&reason);
            Err(
                ProxyError::guard_blocked(
                    joined("caller profile blocked request: ", message.as_str()),
                ),
            )
        },
    }
}

/// Whether the budget of a profile is looked at: budgets are on, and the profile
/// has a limit.
pub fn budget_applies(budget_enabled: bool, limit: u64) -> (applies: bool)
    ensures
        applies == (budget_enabled && limit != 0),
{
    budget_enabled && limit != 0
}

/// What the budget store says of one more request.
pub struct BudgetCheck {
    pub allowed: bool,
    pub current_count: u64,
    pub limit: u64,
}

/// Whether an error says that a profile's budget is used up.
pub open spec fn over_budget(
    kind: ErrorKind,
    name: Seq<char>,
    day: Seq<char>,
    check: BudgetCheck,
) -> bool {
    match kind {
        ErrorKind::BudgetExceeded { profile, date, current_count, limit } => profile@ == name
            && date@ == day && current_count == check.current_count && limit == check.limit,
        _ => false,
    }
}

/// What is recorded of a budget that could not be read.
pub open spec fn budget_failure_bindings(profile: Seq<char>, date: Seq<char>, limit: u64) -> Bindings {
    Bindings::empty().insert("caller_profile"@, profile).insert("budget_date"@, date).insert(
        "budget_limit"@,
        decimal(limit as nat),
    )
}

/// Whether a budget lets a request through.
pub open spec fn budget_allows(
    budget_enabled: bool,
    limit: u64,
    check: Result<BudgetCheck, String>,
) -> bool {
    !budget_enabled || limit == 0 || (check is Ok && check->Ok_0.allowed)
}

/// Whether an error says why a budget does not let a request through.
pub open spec fn budget_refuses(
    profile: Seq<char>,
    budget_enabled: bool,
    limit: u64,
    date: Seq<char>,
    check: Result<BudgetCheck, String>,
    error: ProxyError,
) -> bool {
    !budget_allows(budget_enabled, limit, check) && match check {
        Ok(check) => {
            &&& over_budget(error.kind, profile, date, check)
            &&& error@ == (ProxyErrorModel {
                request_metadata: Some(
                    crate::errors::budget_bindings(
                        profile,
                        date,
                        check.current_count,
                        check.limit,
                    ),
                ),
                ..bare_error(error.kind)
            })
        },
        Err(reason) => error@ == (ProxyErrorModel {
            request_metadata: Some(budget_failure_bindings(profile, date, limit)),
            ..bare_error(ErrorKind::BudgetStoreFailure { reason })
        }),
    }
}

/// Holds a request to the daily budget of its caller's profile. `check` is what
/// the budget store says of the request on `date`.
pub fn enforce_caller_profile_budget(
    caller_profile: &ResolvedCallerProfile,
    budget_enabled: bool,
    limit: u64,
    date: String,
    check: Result<BudgetCheck, String>,
) -> (checked: Result<(), ProxyError>)
    ensures
        match checked {
            Ok(_) => budget_allows(budget_enabled, limit, check),
            Err(error) => budget_refuses(
                caller_profile.name@,
                budget_enabled,
                limit,
                date@,
                check,
                error,
            ),
        },
{
    if !budget_applies(budget_enabled, limit) {
        return Ok(());
    }
    match check {
        Ok(check) => {
            if check.allowed {
                return Ok(());
            }
            Err(
                ProxyError::budget_exceeded(
                    caller_profile.name.clone(),
                    date,
                    check.current_count,
                    check.limit,
                ),
            )
        },
        Err(reason) => {
            let mut metadata = Metadata::new();
            metadata.set("caller_profile", caller_profile.name.as_str());
            metadata.set("budget_date", date.as_str());
            metadata.set_number("budget_limit", limit);
            Err(ProxyError::budget_store_failed(reason).with_request_metadata(metadata))
        },
    }
}

/// A key belongs to the profile that the last entry for it names, and to none without
/// an entry.
pub proof fn keys_belong_to_their_last_entry(keys: Seq<(String, String)>, key: Seq<char>, at: int)
    ensures
        0 <= at < keys.len() && keys[at].0@ == key && (forall|i: int|
            at < i < keys.len() ==> (#[trigger] keys[i]).0@ != key) ==> profile_of_key(keys, key)
            == Some(keys[at].1@),
        (forall|i: int| 0 <= i < keys.len() ==> (#[trigger] keys[i]).0@ != key) ==> profile_of_key(
            keys,
            key,
        ) is None,
    decreases keys.len(),
{
    if keys.len() > 0 {
        let before = keys.drop_last();
        keys_belong_to_their_last_entry(before, key, at);
        assert forall|i: int| 0 <= i < before.len() implies before[i] == keys[i] by {}
        if 0 <= at < before.len() {
            assert(before[at] == keys[at]);
            assert(keys.last() == keys[keys.len() - 1]);
        }
        if (forall|i: int| 0 <= i < keys.len() ==> (#[trigger] keys[i]).0@ != key) {
            assert forall|i: int| 0 <= i < before.len() implies (#[trigger] before[i]).0@ != key by {
                assert(before[i] == keys[i]);
            }
        }
        if 0 <= at < before.len() && (forall|i: int|
            at < i < keys.len() ==> (#[trigger] keys[i]).0@ != key) {
            assert forall|i: int| at < i < before.len() implies (#[trigger] before[i]).0@ != key by {
                assert(before[i] == keys[i]);
            }
        }
    }
}

/// The key of a caller is the virtual-key header, and the bearer token where there is
/// none or it is blank; it has no white space around it and is never empty.
pub proof fn keys_come_from_the_headers(headers: Seq<HeaderModel>)
    ensures
        nonblank(header_text_of(headers, "x-virtual-key"@)) is Some ==> virtual_key_of(headers)
            == nonblank(header_text_of(headers, "x-virtual-key"@)),
        nonblank(header_text_of(headers, "x-virtual-key"@)) is None ==> virtual_key_of(headers)
            == bearer_of(headers),
        header_text_of(headers, "authorization"@) is None ==> bearer_of(headers) is None,
        virtual_key_of(headers) matches Some(key) ==> key.len() > 0 && !crate::text::is_space(
            key[0],
        ) && !crate::text::is_space(key.last()),
{
    match header_text_of(headers, "x-virtual-key"@) {
        Some(text) => {
            let span = crate::text::trimming_takes_white_space_only(text);
        },
        None => {},
    }
    match nonblank(header_text_of(headers, "authorization"@)) {
        Some(value) => {
            match bearer_rest(value) {
                Some(rest) => {
                    let span = crate::text::trimming_takes_white_space_only(rest);
                },
                None => {},
            }
        },
        None => {},
    }
}

/// A bearer token is what follows the word, with a capital or without.
pub proof fn bearer_tokens_follow_the_word(token: Seq<char>, other: Seq<char>)
    ensures
        bearer_rest("Bearer "@ + token) == Some(token),
        bearer_rest("bearer "@ + token) == Some(token),
        bearer_rest(other) matches Some(rest) ==> other == "Bearer "@ + rest || other == "bearer "@
            + rest,
{
    reveal_strlit("Bearer ");
    reveal_strlit("bearer ");
    assert(("Bearer "@ + token).take("Bearer "@.len() as int) =~= "Bearer "@);
    assert(("Bearer "@ + token).skip("Bearer "@.len() as int) =~= token);
    assert(("bearer "@ + token).take("bearer "@.len() as int) =~= "bearer "@);
    assert(("bearer "@ + token).skip("bearer "@.len() as int) =~= token);
    assert("Bearer "@[0] != "bearer "@[0]);
    assert(("bearer "@ + token).take("Bearer "@.len() as int)[0] == "bearer "@[0]);
    crate::text::prefixes_and_parts_are_found(other, "Bearer "@, token);
    crate::text::prefixes_and_parts_are_found(other, "bearer "@, token);
}

/// The summary is open where no token is set; else it takes the very token, as bearer
/// token or in the header for it.
pub proof fn summaries_take_the_very_token(headers: Seq<HeaderModel>, token: Seq<char>)
    requires
        token.len() > 0,
    ensures
        summary_allowed(headers, None),
        summary_allowed(headers, Some(Seq::empty())),
        header_text_of(headers, "x-admin-token"@) == Some(token) ==> summary_allowed(
            headers,
            Some(token),
        ),
        header_text_of(headers, "authorization"@) == Some("Bearer "@ + token) ==> summary_allowed(
            headers,
            Some(token),
        ),
        summary_allowed(headers, Some(token)) ==> header_text_of(headers, "x-admin-token"@) == Some(
            token,
        ) || header_text_of(headers, "authorization"@) == Some("Bearer "@ + token),
{
    assert(("Bearer "@ + token).take("Bearer "@.len() as int) =~= "Bearer "@);
    assert(("Bearer "@ + token).skip("Bearer "@.len() as int) =~= token);
    match header_text_of(headers, "authorization"@) {
        Some(text) => {
            crate::text::prefixes_and_parts_are_found(text, "Bearer "@, token);
        },
        None => {},
    }
}

/// Every caller that is let in has the profile of their key, the one profile there is,
/// or the default profile, and is held to the policy of it where profiles are set up.
/// A key that is known always counts.
pub proof fn callers_have_their_profile(
    settings: CallerSettings,
    key: Option<Seq<char>>,
    choice: Result<ResolvedCallerProfile, ProxyErrorModel>,
    at: int,
)
    requires
        caller_choice(settings, key, choice),
    ensures
        !settings.virtual_keys_enabled ==> (choice matches Ok(profile) && profile.name@
            == settings.default_profile@),
        settings.virtual_keys_enabled && (key matches Some(key) && (profile_of_key(
            settings.keys@,
            key,
        ) matches Some(name) && 0 <= at < settings.profiles.len() && settings.profiles[at]@
            == name)) ==> (choice matches Ok(profile) && profile.name@ == settings.profiles[at]@
            && profile.resolution is VirtualKeyMatched),
        settings.virtual_keys_enabled && key is None && settings.profiles.len() == 1 ==> (
        choice matches Ok(profile) && profile.name@ == settings.profiles[0]@),
        settings.virtual_keys_enabled && key is None && settings.profiles.len() != 1
            && settings.unknown_key_policy is FailClosed ==> choice is Err,
        settings.unknown_key_policy is UseDefaultProfile ==> choice is Ok,
        choice matches Ok(profile) ==> profile.enforce_policy == (settings.profiles.len() > 0),
        choice matches Err(error) ==> error.kind is VirtualKeyUnauthorized,
{
}

/// A budget is spent exactly where one is set and the day's count does not allow more.
/// A count that cannot be kept refuses the request as well.
pub proof fn budgets_refuse_when_spent(limit: u64, check: BudgetCheck, reason: String)
    ensures
        budget_allows(false, limit, Ok(check)),
        budget_allows(false, limit, Err(reason)),
        budget_allows(true, 0, Ok(check)),
        budget_allows(true, 0, Err(reason)),
        limit > 0 ==> (budget_allows(true, limit, Ok(check)) <==> check.allowed),
        limit > 0 ==> !budget_allows(true, limit, Err(reason)),
{
}

/// What is recorded of a caller is their profile and how it was found.
pub proof fn caller_profiles_are_recorded(
    bindings: Bindings,
    profile: ResolvedCallerProfile,
)
    ensures
        ({
            let told = with_caller_profile(bindings, profile);
            &&& told.contains_key("caller_profile"@) && told["caller_profile"@] == profile.name@
            &&& told.contains_key("virtual_key_resolution"@) && told["virtual_key_resolution"@] == profile.resolution.label()
        }),
{
    reveal_strlit("caller_profile");
    reveal_strlit("virtual_key_resolution");
    assert("caller_profile"@.len() == 14);
    assert("virtual_key_resolution"@.len() == 22);
}

/// A request that its profile blocks is told why: the model, or the limit of the day.
pub proof fn blocked_requests_are_told_why(model: String, limit: u64)
    ensures
        block_text(BlockReason::DailyLimitExceeded { limit }) == "daily request limit exceeded: limit="@
            + decimal(limit as nat),
        block_text(BlockReason::ModelNotAllowed { model }) == "model not allowed: "@
            + denied_model_text(Some(model@)),
{
}

/// A caller over their budget is told of it with the numbers, and one whose budget could
/// not be looked up with the reason.
pub proof fn spent_budgets_are_told(
    profile: Seq<char>,
    enabled: bool,
    limit: u64,
    date: Seq<char>,
    check: BudgetCheck,
    reason: String,
    error: ProxyError,
)
    ensures
        budget_refuses(profile, enabled, limit, date, Ok(check), error) ==> {
            &&& error.kind matches ErrorKind::BudgetExceeded {
                profile: who,
                date: day,
                current_count,
                limit: most,
            }
            &&& who@ == profile
            &&& day@ == date
            &&& current_count == check.current_count
            &&& most == check.limit
            &&& error@.request_metadata matches Some(told)
            &&& told["budget_count"@] == decimal(check.current_count as nat)
            &&& told["budget_limit"@] == decimal(check.limit as nat)
            &&& told["caller_profile"@] == profile
            &&& told["budget_date"@] == date
        },
        budget_refuses(profile, enabled, limit, date, Err(reason), error) ==> {
            &&& error.kind == ErrorKind::BudgetStoreFailure { reason }
            &&& error@.request_metadata matches Some(told)
            &&& told["budget_limit"@] == decimal(limit as nat)
            &&& told["caller_profile"@] == profile
            &&& told["budget_date"@] == date
        },
{
    assert(error@.kind == error.kind);
    reveal_strlit("caller_profile");
    reveal_strlit("budget_date");
    reveal_strlit("budget_count");
    reveal_strlit("budget_limit");
    reveal_strlit("budget_outcome");
    assert("caller_profile"@.len() == 14);
    assert("budget_date"@.len() == 11);
    assert("budget_count"@.len() == 12);
    assert("budget_limit"@.len() == 12);
    assert("budget_outcome"@.len() == 14);
    assert("caller_profile"@[0] != "budget_outcome"@[0]);
    assert("budget_count"@[7] != "budget_limit"@[7]);
}

/// A blocked request is an error of the guard that says why it was blocked.
pub proof fn blocked_requests_are_errors(kind: ErrorKind, block: BlockReason)
    requires
        blocked_by(kind, block),
    ensures
        kind matches ErrorKind::GuardBlocked { reason } && crate::text::has_part(
            reason@,
            block_text(block),
        ),
{
    let before = "caller profile blocked request: "@;
    let text = block_text(block);
    assert(before + text =~= before + text + Seq::<char>::empty());
    crate::text::prefixes_and_parts_are_found(before, text, Seq::empty());
}

/// A profile is what it is named, found and enforced as.
pub proof fn profiles_are_what_they_say(
    profile: ResolvedCallerProfile,
    name: Seq<char>,
    resolution: CallerProfileResolution,
    enforced: bool,
    error: ProxyError,
)
    ensures
        is_profile(profile, name, resolution, enforced) ==> profile.name@ == name
            && profile.resolution == resolution && profile.enforce_policy == enforced,
        choice_model(Ok(profile)) == Ok::<ResolvedCallerProfile, ProxyErrorModel>(profile),
        choice_model(Err(error)) == Err::<ResolvedCallerProfile, ProxyErrorModel>(error@),
{
}

/// Either way of giving the token opens the summaries, where there is one to give.
pub proof fn summaries_open_to_either_token(headers: Seq<HeaderModel>, token: Seq<char>)
    requires
        token.len() > 0,
    ensures
        exact_bearer(headers) == Some(token) ==> summary_allowed(headers, Some(token)),
        header_text_of(headers, "x-admin-token"@) == Some(token) ==> summary_allowed(
            headers,
            Some(token),
        ),
        summary_allowed(headers, Some(token)) ==> exact_bearer(headers) == Some(token)
            || header_text_of(headers, "x-admin-token"@) == Some(token),
{
}

/// Each way to find a profile has a name of its own.
pub proof fn resolutions_have_their_names(resolution: CallerProfileResolution)
    ensures
        resolution is VirtualKeyMatched ==> resolution.label() == "matched"@,
        resolution is DisabledDefault ==> resolution.label() == "disabled_default"@,
        resolution is SingleProfileDefault ==> resolution.label() == "single_profile_default"@,
        resolution is UnknownUseDefault ==> resolution.label() == "unknown_use_default"@,
{
}

} // verus!
