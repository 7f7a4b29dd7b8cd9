//! Fingerprints of chat inputs: what is asked, without credentials and without
//! the way in which the answer is delivered.

use crate::json::{
    parse_json, parsed_json, render_json, rendered_json, Json, JsonModel, JsonObject,
};
use crate::profiles::{show_hash, shown_hash};
use crate::text::{
    chars_of, contains, has_part, lower_char, opt_chars, same_text, to_lower_char,
};
use vstd::prelude::*;
use vstd::utf8::encode_utf8;

verus! {

/// Whether a character is an ASCII letter or digit.
pub open spec fn is_alphanumeric(c: char) -> bool {
    ('0' <= c && c <= '9') || ('A' <= c && c <= 'Z') || ('a' <= c && c <= 'z')
}

/// The ASCII letters and digits of a key, in lower case.
pub open spec fn plain_key(key: Seq<char>) -> Seq<char>
    decreases key.len(),
{
    if key.len() == 0 {
        Seq::empty()
    } else if is_alphanumeric(key.last()) {
        plain_key(key.drop_last()).push(lower_char(key.last()))
    } else {
        plain_key(key.drop_last())
    }
}

fn write_plain_key(key: &str) -> (plain: String)
    ensures
        plain@ == plain_key(key@),
{
    let chars = chars_of(key);
    let mut plain = String::new();
    let mut i: usize = 0;
    while i < chars.len()
        invariant
            i <= chars.len(),
            chars@ == key@,
            plain@ == plain_key(key@.take(i as int)),
        decreases chars.len() - i,
    {
        let c = chars[i];
        assert(key@.take(i + 1).drop_last() =~= key@.take(i as int));
        if (c >= '0' && c <= '9') || (c >= 'A' && c <= 'Z') || (c >= 'a' && c <= 'z') {
            plain.push(to_lower_char(c));
        }
        i += 1;
    }
    assert(key@.take(i as int) =~= key@);
    plain
}

/// Whether a key speaks of a number of tokens and not of a secret token.
pub open spec fn counts_tokens(plain: Seq<char>) -> bool {
    ||| plain == "maxtokens"@
    ||| plain == "maxcompletiontokens"@
    ||| plain == "maxoutputtokens"@
    ||| plain == "budgettokens"@
    ||| plain == "thinkingtokenbudget"@
}

/// Whether a key speaks of a number of tokens and not of a secret token.
pub fn is_known_non_secret_token_fingerprint_key(normalized_key: &str) -> (is: bool)
    ensures
        is == counts_tokens(normalized_key@),
{
    same_text(normalized_key, "maxtokens") || same_text(normalized_key, "maxcompletiontokens")
        || same_text(normalized_key, "maxoutputtokens") || same_text(normalized_key, "budgettokens")
        || same_text(normalized_key, "thinkingtokenbudget")
}

/// Whether a key speaks of a credential.
pub open spec fn is_sensitive_key(key: Seq<char>) -> bool {
    let plain = plain_key(key);
    &&& !counts_tokens(plain)
    &&& {
        ||| has_part(plain, "authorization"@)
        ||| has_part(plain, "apikey"@)
        ||| has_part(plain, "accesskey"@)
        ||| has_part(plain, "privatekey"@)
        ||| has_part(plain, "secret"@)
        ||| has_part(plain, "password"@)
        ||| has_part(plain, "credential"@)
        ||| has_part(plain, "credentials"@)
        ||| has_part(plain, "bearer"@)
        ||| has_part(plain, "token"@)
    }
}

/// Whether a key speaks of a credential.
pub fn is_sensitive_fingerprint_key(key: &str) -> (sensitive: bool)
    ensures
        sensitive == is_sensitive_key(key@),
{
    let plain = write_plain_key(key);
    let text = plain.as_str();
    if is_known_non_secret_token_fingerprint_key(text) {
        return false;
    }
    contains(text, "authorization") || contains(text, "apikey") || contains(text, "accesskey")
        || contains(text, "privatekey") || contains(text, "secret") || contains(text, "password")
        || contains(text, "credential") || contains(text, "credentials") || contains(text, "bearer")
        || contains(text, "token")
}

/// A value without the members that speak of credentials, at any depth.
pub open spec fn sanitized(value: JsonModel) -> JsonModel
    decreases value,
{
    match value {
        JsonModel::Object(fields) => JsonModel::Object(
            Map::new(
                |key: Seq<char>| fields.contains_key(key) && !is_sensitive_key(key),
                |key: Seq<char>|
                    if fields.contains_key(key) {
                        sanitized(fields[key])
                    } else {
                        JsonModel::Null
                    },
            ),
        ),
        JsonModel::Array(items) => JsonModel::Array(
            Seq::new(
                items.len(),
                |i: int|
                    if 0 <= i < items.len() {
                        sanitized(items[i])
                    } else {
                        JsonModel::Null
                    },
            ),
        ),
        other => other,
    }
}

/// The members of an object that are kept, each without credentials.
pub open spec fn sanitized_fields(fields: Map<Seq<char>, JsonModel>) -> Map<Seq<char>, JsonModel> {
    Map::new(
        |key: Seq<char>| fields.contains_key(key) && !is_sensitive_key(key),
        |key: Seq<char>| sanitized(fields[key]),
    )
}

/// The members of a chat request that its fingerprint is made of.
pub open spec fn normalized_fields(fields: Map<Seq<char>, JsonModel>) -> Map<Seq<char>, JsonModel> {
    sanitized_fields(fields).remove("stream"@)
}

/// What the fingerprint of a chat request is made of.
pub open spec fn normalized(value: JsonModel) -> Option<JsonModel> {
    match value {
        JsonModel::Object(fields) => Some(JsonModel::Object(normalized_fields(fields))),
        _ => None,
    }
}

/// A copy of a value without the members that speak of credentials.
pub fn sanitize_fingerprint_value(value: &Json) -> (clean: Json)
    ensures
        clean@ == sanitized(value@),
    decreases value,
{
    match value {
        Json::Object(fields) => {
            let mut clean = JsonObject::new();
            let mut i: usize = 0;
            assert(clean@ =~= sanitized_fields(Json::fields_model(*fields, 0)));
            while i < fields.len()
                invariant
                    i <= fields.len(),
                    *value == Json::Object(*fields),
                    clean@ == sanitized_fields(Json::fields_model(*fields, i as nat)),
                decreases fields.len() - i,
            {
                assert(decreases_to!(*value => value->Object_0));
                assert(decreases_to!(*fields => fields[i as int]));
                let ghost before = clean@;
                if !is_sensitive_fingerprint_key(fields[i].0.as_str()) {
                    let member = sanitize_fingerprint_value(&fields[i].1);
                    clean.insert(fields[i].0.as_str(), member);
                }
                i += 1;
                assert(clean@ =~= sanitized_fields(Json::fields_model(*fields, i as nat)));
            }
            let clean = clean.into_json();
            assert(clean@->Object_0 =~= sanitized(value@)->Object_0);
            clean
        },
        Json::Array(items) => {
            let mut clean: Vec<Json> = Vec::new();
            let mut i: usize = 0;
            while i < items.len()
                invariant
                    i <= items.len(),
                    *value == Json::Array(*items),
                    clean.len() == i,
                    forall|j: int| 0 <= j < i ==> (#[trigger] clean[j])@ == sanitized(items[j]@),
                decreases items.len() - i,
            {
                assert(decreases_to!(*value => value->Array_0));
                assert(decreases_to!(*items => items[i as int]));
                clean.push(sanitize_fingerprint_value(&items[i]));
                i += 1;
            }
            let clean = Json::Array(clean);
            assert(clean@->Array_0 =~= sanitized(value@)->Array_0);
            clean
        },
        _ => value.clone(),
    }
}

/// What the fingerprint of a chat request is made of: an object without its
/// `stream` member and without credentials.
pub fn normalize_chat_fingerprint_value(value: &Json) -> (normal: Option<Json>)
    ensures
        match normal {
            Some(normal) => normalized(value@) == Some(normal@),
            None => normalized(value@) is None,
        },
{
    match value {
        Json::Object(fields) => {
            let mut normal = JsonObject::new();
            let mut i: usize = 0;
            assert(normal@ =~= normalized_fields(Json::fields_model(*fields, 0)));
            while i < fields.len()
                invariant
                    i <= fields.len(),
                    normal@ == normalized_fields(Json::fields_model(*fields, i as nat)),
                decreases fields.len() - i,
            {
                let key = fields[i].0.as_str();
                if !same_text(key, "stream") && !is_sensitive_fingerprint_key(key) {
                    let member = sanitize_fingerprint_value(&fields[i].1);
                    normal.insert(key, member);
                }
                i += 1;
                assert(normal@ =~= normalized_fields(Json::fields_model(*fields, i as nat)));
            }
            Some(normal.into_json())
        },
        _ => None,
    }
}

/// The hash of some bytes under the standard library's default hasher, where a size
/// has the given number of bits.
pub uninterp spec fn bytes_hash(bytes: Seq<u8>, size_bits: u32) -> u64;

/// `std::collections::hash_map::DefaultHasher::new`, fed with the number of bytes,
/// lowest byte first, and then the bytes. A hasher made by `new` is the same as
/// every other made by `new`, so the hash is a function of the bytes and of how
/// wide a size is. Where sizes are stored lowest byte first it is the hash that the
/// standard library gives a list of bytes.
#[verifier::external_body]
fn hash_bytes(bytes: &Vec<u8>) -> (hash: u64)
    ensures
        hash == bytes_hash(bytes@, usize::BITS),
{
    let mut hasher = std::collections::hash_map::DefaultHasher::new();
    std::hash::Hasher::write(&mut hasher, &bytes.len().to_le_bytes());
    std::hash::Hasher::write(&mut hasher, bytes);
    std::hash::Hasher::finish(&hasher)
}

/// The fingerprint of a parsed chat request.
pub open spec fn fingerprint_of(value: JsonModel) -> Option<Seq<char>> {
    match normalized(value) {
        Some(normal) => Some(
            shown_hash(bytes_hash(encode_utf8(rendered_json(normal)), usize::BITS)),
        ),
        None => None,
    }
}

/// The fingerprint of a parsed chat request.
pub fn fingerprint_parsed_chat(value: &Json) -> (fingerprint: Option<String>)
    ensures
        opt_chars(fingerprint) == fingerprint_of(value@),
{
    match normalize_chat_fingerprint_value(value) {
        Some(normal) => {
            let bytes = render_json(&normal).as_str().as_bytes_vec();
            Some(show_hash(hash_bytes(&bytes)))
        },
        None => None,
    }
}

/// The fingerprint of a chat request.
pub fn chat_input_fingerprint(body: &[u8]) -> (fingerprint: Option<String>)
    ensures
        opt_chars(fingerprint) == match parsed_json(body@) {
            Ok(value) => fingerprint_of(value),
            Err(_) => None,
        },
{
    match parse_json(body) {
        Ok(value) => fingerprint_parsed_chat(&value),
        Err(_) => None,
    }
}

/// Whether no member of a value, at any depth, speaks of a credential.
pub open spec fn is_clean(value: JsonModel) -> bool
    decreases value,
{
    match value {
        JsonModel::Object(fields) => forall|key: Seq<char>| #[trigger]
            fields.contains_key(key) ==> !is_sensitive_key(key) && is_clean(fields[key]),
        JsonModel::Array(items) => forall|i: int|
            0 <= i < items.len() ==> is_clean(#[trigger] items[i]),
        _ => true,
    }
}

/// What a fingerprint is made of holds no credential at any depth.
pub proof fn sanitized_values_are_clean(value: JsonModel)
    ensures
        is_clean(sanitized(value)),
    decreases value,
{
    match value {
        JsonModel::Object(fields) => {
            let clean = sanitized(value)->Object_0;
            assert forall|key: Seq<char>| #[trigger] clean.contains_key(key) implies !is_sensitive_key(
                key,
            ) && is_clean(clean[key]) by {
                sanitized_values_are_clean(fields[key]);
            }
        },
        JsonModel::Array(items) => {
            let clean = sanitized(value)->Array_0;
            assert forall|i: int| 0 <= i < clean.len() implies is_clean(#[trigger] clean[i]) by {
                sanitized_values_are_clean(items[i]);
            }
        },
        _ => {},
    }
}

/// A value without credentials is left as it is.
pub proof fn clean_values_are_kept(value: JsonModel)
    requires
        is_clean(value),
    ensures
        sanitized(value) == value,
    decreases value,
{
    match value {
        JsonModel::Object(fields) => {
            let clean = sanitized(value)->Object_0;
            assert forall|key: Seq<char>| #[trigger] fields.contains_key(key) implies clean[key]
                == fields[key] by {
                clean_values_are_kept(fields[key]);
            }
            assert(clean =~= fields);
        },
        JsonModel::Array(items) => {
            let clean = sanitized(value)->Array_0;
            assert forall|i: int| 0 <= i < items.len() implies clean[i] == #[trigger] items[i] by {
                clean_values_are_kept(items[i]);
            }
            assert(clean =~= items);
        },
        _ => {},
    }
}

/// Two chat requests that differ only in whether the answer is streamed, and in
/// top-level members that speak of credentials, have the same fingerprint.
pub proof fn delivery_does_not_change_the_fingerprint(
    a: Map<Seq<char>, JsonModel>,
    b: Map<Seq<char>, JsonModel>,
)
    requires
        forall|key: Seq<char>|
            key != "stream"@ && !is_sensitive_key(key) ==> (#[trigger] a.contains_key(key)
                == b.contains_key(key)) && (a.contains_key(key) ==> a[key] == b[key]),
    ensures
        fingerprint_of(JsonModel::Object(a)) == fingerprint_of(JsonModel::Object(b)),
{
    assert(normalized_fields(a) =~= normalized_fields(b)) by {
        assert forall|key: Seq<char>| normalized_fields(a).contains_key(key)
            == #[trigger] normalized_fields(b).contains_key(key) by {
            assert(a.contains_key(key) == a.contains_key(key));
        }
    }
}

proof fn plain_keys_add_up(first: Seq<char>, second: Seq<char>)
    ensures
        plain_key(first + second) == plain_key(first) + plain_key(second),
    decreases second.len(),
{
    if second.len() == 0 {
        assert(first + second =~= first);
        assert(plain_key(first) + plain_key(second) =~= plain_key(first));
    } else {
        plain_keys_add_up(first, second.drop_last());
        assert((first + second).drop_last() =~= first + second.drop_last());
        assert((first + second).last() == second.last());
        assert(plain_key(first + second) =~= plain_key(first) + plain_key(second));
    }
}

proof fn parts_of_keys_stay(before: Seq<char>, part: Seq<char>, after: Seq<char>)
    ensures
        has_part(plain_key(before + part + after), plain_key(part)),
{
    plain_keys_add_up(before + part, after);
    plain_keys_add_up(before, part);
    crate::text::prefixes_and_parts_are_found(plain_key(before), plain_key(part), plain_key(after));
}

proof fn lower_case_keys_are_plain(key: Seq<char>)
    requires
        forall|i: int| 0 <= i < key.len() ==> 'a' <= #[trigger] key[i] && key[i] <= 'z',
    ensures
        plain_key(key) == key,
    decreases key.len(),
{
    if key.len() > 0 {
        let before = key.drop_last();
        assert forall|i: int| 0 <= i < before.len() implies 'a' <= #[trigger] before[i]
            && before[i] <= 'z' by {
            assert(before[i] == key[i]);
        }
        lower_case_keys_are_plain(before);
        assert(key.last() == key[key.len() - 1]);
        assert(lower_char(key.last()) == key.last());
        assert(before.push(key.last()) =~= key);
    } else {
        assert(key =~= Seq::<char>::empty());
    }
}

/// A key that names a secret is sensitive, wherever the word stands in it, but for the
/// limits that count tokens.
pub proof fn keys_that_name_secrets_are_sensitive(before: Seq<char>, after: Seq<char>)
    ensures
        forall|word: Seq<char>|
            #![trigger has_part(plain_key(before + word + after), word)]
            (word == "authorization"@ || word == "apikey"@ || word == "accesskey"@ || word
                == "privatekey"@ || word == "secret"@ || word == "password"@ || word
                == "credential"@ || word == "bearer"@ || word == "token"@) && !counts_tokens(
                plain_key(before + word + after),
            ) ==> is_sensitive_key(before + word + after),
        is_sensitive_key("api_key"@),
        is_sensitive_key("API-Key"@),
        !is_sensitive_key("max_tokens"@),
{
    assert forall|word: Seq<char>|
        #![trigger has_part(plain_key(before + word + after), word)]
        (word == "authorization"@ || word == "apikey"@ || word == "accesskey"@ || word
            == "privatekey"@ || word == "secret"@ || word == "password"@ || word == "credential"@
            || word == "bearer"@ || word == "token"@) && !counts_tokens(
            plain_key(before + word + after),
        ) implies is_sensitive_key(before + word + after) by {
        reveal_strlit("authorization");
        reveal_strlit("apikey");
        reveal_strlit("accesskey");
        reveal_strlit("privatekey");
        reveal_strlit("secret");
        reveal_strlit("password");
        reveal_strlit("credential");
        reveal_strlit("bearer");
        reveal_strlit("token");
        lower_case_keys_are_plain(word);
        parts_of_keys_stay(before, word, after);
    }
    reveal_strlit("api_key");
    reveal_strlit("API-Key");
    reveal_strlit("max_tokens");
    reveal_strlit("apikey");
    reveal_strlit("maxtokens");
    reveal_strlit("maxcompletiontokens");
    reveal_strlit("maxoutputtokens");
    reveal_strlit("budgettokens");
    reveal_strlit("thinkingtokenbudget");
    reveal_with_fuel(plain_key, 11);
    let plain = "apikey"@;
    assert(plain_key("api_key"@) =~= plain);
    assert(plain_key("API-Key"@) =~= plain);
    assert(plain_key("max_tokens"@) =~= "maxtokens"@);
    assert(plain.len() == 6);
    assert("maxtokens"@.len() == 9);
    assert("maxcompletiontokens"@.len() == 19);
    assert("maxoutputtokens"@.len() == 15);
    assert("budgettokens"@.len() == 12);
    assert("thinkingtokenbudget"@.len() == 19);
    crate::text::prefixes_and_parts_are_found(Seq::empty(), plain, Seq::empty());
    assert(Seq::<char>::empty() + plain + Seq::<char>::empty() =~= plain);
}

/// What counts of a request is every member but the secrets and whether it is
/// streamed; in lists and members all of it counts, and what is no list and no object
/// counts as it is.
pub proof fn everything_else_counts(
    fields: Map<Seq<char>, JsonModel>,
    items: Seq<JsonModel>,
    key: Seq<char>,
    at: int,
    plain: JsonModel,
)
    ensures
        ({
            let clean = sanitized(JsonModel::Object(fields));
            &&& fields.contains_key(key) && !is_sensitive_key(key) ==> clean.field(key) == Some(
                sanitized(fields[key]),
            )
            &&& !fields.contains_key(key) || is_sensitive_key(key) ==> clean.field(key) is None
        }),
        ({
            let normal = normalized(JsonModel::Object(fields));
            &&& normal is Some
            &&& fields.contains_key(key) && !is_sensitive_key(key) && key != "stream"@
                ==> normal->Some_0.field(key) == Some(sanitized(fields[key]))
            &&& normal->Some_0.field("stream"@) is None
        }),
        sanitized(JsonModel::Array(items)) is Array,
        sanitized(JsonModel::Array(items))->Array_0.len() == items.len(),
        0 <= at < items.len() ==> sanitized(JsonModel::Array(items))->Array_0[at] == sanitized(
            items[at],
        ),
        !(plain is Object) && !(plain is Array) ==> sanitized(plain) == plain,
        !(plain is Object) ==> fingerprint_of(plain) is None,
        fingerprint_of(JsonModel::Object(fields)) is Some,
{
}

} // verus!
