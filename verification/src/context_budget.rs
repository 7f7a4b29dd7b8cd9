//! Estimating whether a request fits the context window of its model before it
//! is sent.

use crate::errors::{bare_error, is_invalid_request, ProxyError, ProxyErrorModel};
use crate::json::{parse_json, parsed_json, Json, JsonModel};
use crate::metadata::{Bindings, Metadata};
use crate::text::{chars_of, decimal, decimal_text, is_space, is_space_char, same_text};
use vstd::prelude::*;
use vstd::utf8::{decode_utf8, encode_utf8, valid_utf8};

verus! {

// ---------------------------------------------------------------------------
// Texts
// ---------------------------------------------------------------------------

/// The text that `String::from_utf8_lossy` reads in some bytes.
pub uninterp spec fn lossy_text(bytes: Seq<u8>) -> Seq<char>;

/// `String::from_utf8_lossy` reads bytes as UTF-8, with replacement characters
/// where they are none; what it reads is a function of the bytes. Bytes that are
/// UTF-8 are read as what they spell.
#[verifier::external_body]
fn text_from_utf8_lossy(bytes: &[u8]) -> (text: String)
    ensures
        text@ == lossy_text(bytes@),
        valid_utf8(bytes@) ==> text@ == decode_utf8(bytes@),
{
    String::from_utf8_lossy(bytes).into_owned()
}

/// Number of words of a text: of the runs of characters between white space.
pub open spec fn words(text: Seq<char>) -> nat
    decreases text.len(),
{
    if text.len() == 0 {
        0
    } else {
        let begins = !is_space(text.last()) && (text.len() == 1 || is_space(text[text.len() - 2]));
        words(text.drop_last()) + if begins {
            1nat
        } else {
            0nat
        }
    }
}

proof fn words_are_few(text: Seq<char>)
    ensures
        words(text) <= text.len(),
    decreases text.len(),
{
    if text.len() > 0 {
        words_are_few(text.drop_last());
    }
}

fn count_words(text: &str) -> (count: usize)
    ensures
        count == words(text@),
{
    let chars = chars_of(text);
    let mut count: usize = 0;
    let mut after_space = true;
    let mut i: usize = 0;
    while i < chars.len()
        invariant
            i <= chars.len(),
            count == words(chars@.take(i as int)),
            count <= i,
            after_space == (i == 0 || is_space(chars@[i - 1])),
        decreases chars.len() - i,
    {
        assert(chars@.take(i + 1).drop_last() =~= chars@.take(i as int));
        let space = is_space_char(chars[i]);
        if !space && after_space {
            count += 1;
        }
        after_space = space;
        i += 1;
        proof {
            words_are_few(chars@.take(i as int));
        }
    }
    assert(chars@.take(i as int) =~= chars@);
    count
}

/// The tokens that a text of `bytes` bytes and `words` words is taken for: one
/// for every four bytes, and no fewer than it has words.
pub open spec fn estimated(bytes: nat, words: nat) -> nat {
    if (bytes + 3) / 4 >= words {
        (bytes + 3) / 4
    } else {
        words
    }
}

/// The tokens that some bytes are taken for.
pub open spec fn bytes_tokens(bytes: Seq<u8>) -> nat {
    estimated(bytes.len(), words(lossy_text(bytes)))
}

/// The tokens that a text is taken for.
pub open spec fn text_tokens(text: Seq<char>) -> nat {
    estimated(encode_utf8(text).len(), words(text))
}

fn estimate(bytes: usize, words: usize) -> (tokens: u64)
    ensures
        tokens == estimated(bytes as nat, words as nat),
{
    let quarters: u64 = (bytes / 4) as u64 + if bytes % 4 > 0 {
        1
    } else {
        0
    };
    let words: u64 = words as u64;
    if quarters >= words {
        quarters
    } else {
        words
    }
}

/// Estimates the tokens of some bytes.
pub fn estimate_text_tokens(bytes: &[u8]) -> (tokens: u64)
    ensures
        tokens == bytes_tokens(bytes@),
        forall|text: Seq<char>| #![trigger encode_utf8(text)]
            bytes@ == encode_utf8(text) ==> tokens == text_tokens(text),
{
    let text = text_from_utf8_lossy(bytes);
    proof {
        assert forall|spelt: Seq<char>| #![trigger encode_utf8(spelt)]
            bytes@ == encode_utf8(spelt) implies spelt == text@ by {
            vstd::utf8::encode_utf8_valid_utf8(spelt);
            vstd::utf8::encode_utf8_decode_utf8(spelt);
        }
    }
    estimate(bytes.len(), count_words(text.as_str()))
}

// ---------------------------------------------------------------------------
// JSON values
// ---------------------------------------------------------------------------

/// The sum of a list of numbers.
pub open spec fn list_sum(weights: Seq<nat>) -> nat
    decreases weights.len(),
{
    if weights.len() == 0 {
        0
    } else {
        list_sum(weights.drop_last()) + weights.last()
    }
}

/// The sum of the numbers that a finite map holds.
pub open spec fn map_sum(weights: Map<Seq<char>, nat>) -> nat
    decreases weights.dom().len(),
{
    if weights.dom().finite() && weights.dom().len() > 0 {
        let key = weights.dom().choose();
        map_sum(weights.remove(key)) + weights[key]
    } else {
        0
    }
}

/// Any key may be summed last.
proof fn map_sum_without(weights: Map<Seq<char>, nat>, key: Seq<char>)
    requires
        weights.dom().finite(),
        weights.contains_key(key),
    ensures
        map_sum(weights) == map_sum(weights.remove(key)) + weights[key],
    decreases weights.dom().len(),
{
    let chosen = weights.dom().choose();
    assert(weights.dom().len() > 0) by {
        if weights.dom().len() == 0 {
            assert(weights.dom() =~= Set::empty());
        }
    }
    assert(weights.dom().contains(chosen)) by {
        vstd::set::axiom_set_choose_len(weights.dom());
    }
    if chosen != key {
        map_sum_without(weights.remove(chosen), key);
        map_sum_without(weights.remove(key), chosen);
        assert(weights.remove(chosen).remove(key) =~= weights.remove(key).remove(chosen));
    }
}

/// The tokens that a JSON value is taken for: those of all texts in it.
pub open spec fn json_tokens(value: JsonModel) -> nat
    decreases value,
{
    match value {
        JsonModel::Text(text) => text_tokens(text),
        JsonModel::Array(items) => list_sum(items_tokens(items)),
        JsonModel::Object(fields) => map_sum(fields_tokens(fields)),
        _ => 0,
    }
}

/// The tokens of each value of a list.
pub open spec fn items_tokens(items: Seq<JsonModel>) -> Seq<nat>
    decreases items,
{
    Seq::new(
        items.len(),
        |i: int|
            if 0 <= i < items.len() {
                json_tokens(items[i])
            } else {
                0
            },
    )
}

/// The tokens of each member of an object.
pub open spec fn fields_tokens(fields: Map<Seq<char>, JsonModel>) -> Map<Seq<char>, nat>
    decreases fields,
{
    Map::new(
        |key: Seq<char>| fields.contains_key(key),
        |key: Seq<char>|
            if fields.dom().finite() && fields.contains_key(key) {
                json_tokens(fields[key])
            } else {
                0
            },
    )
}

/// A number of tokens as far as it fits.
pub open spec fn held(tokens: nat) -> u64 {
    if tokens <= u64::MAX {
        tokens as u64
    } else {
        u64::MAX
    }
}

/// What the entries of an object from `from` on bind to, in tokens.
spec fn weights_from(fields: Vec<(String, Json)>, from: int) -> Map<Seq<char>, nat> {
    let all = Json::fields_model(fields, fields.len() as nat);
    Map::new(
        |key: Seq<char>| exists|i: int| from <= i < fields.len() && (#[trigger] fields[i]).0@ == key,
        |key: Seq<char>| json_tokens(all[key]),
    )
}

/// What an object binds a key to is the last entry under it.
proof fn last_entry_prevails(fields: Vec<(String, Json)>, at: int, count: nat)
    requires
        0 <= at < count <= fields.len(),
        forall|j: int| at < j < count ==> (#[trigger] fields[j]).0@ != fields[at].0@,
    ensures
        Json::fields_model(fields, count).contains_key(fields[at].0@),
        Json::fields_model(fields, count)[fields[at].0@] == fields[at].1@,
    decreases count,
{
    if at < count - 1 {
        last_entry_prevails(fields, at, (count - 1) as nat);
        assert(fields[count - 1].0@ != fields[at].0@);
    }
}

/// Every key that an object binds is listed.
proof fn bound_is_listed(fields: Vec<(String, Json)>, count: nat, key: Seq<char>)
    requires
        count <= fields.len(),
    ensures
        Json::fields_model(fields, count).contains_key(key) == exists|i: int|
            0 <= i < count && (#[trigger] fields[i]).0@ == key,
        Json::fields_model(fields, count).dom().finite(),
    decreases count,
{
    if count > 0 {
        bound_is_listed(fields, (count - 1) as nat, key);
        if Json::fields_model(fields, (count - 1) as nat).contains_key(key) {
            let i = choose|i: int| 0 <= i < count - 1 && (#[trigger] fields[i]).0@ == key;
            assert(0 <= i < count && fields[i].0@ == key);
        }
        if fields[count - 1].0@ == key {
            assert(0 <= count - 1 < count && fields[count - 1].0@ == key);
        }
        if exists|i: int| 0 <= i < count && (#[trigger] fields[i]).0@ == key {
            let i = choose|i: int| 0 <= i < count && (#[trigger] fields[i]).0@ == key;
            if i < count - 1 {
                assert(0 <= i < count - 1 && fields[i].0@ == key);
            }
        }
    }
}

/// Estimates the tokens of a JSON value.
pub fn estimate_json_input_tokens(value: &Json) -> (tokens: u64)
    ensures
        tokens == held(json_tokens(value@)),
    decreases *value,
{
    match value {
        Json::Text(text) => {
            let bytes = text.as_str().as_bytes();
            assert(bytes@ == encode_utf8(text@));
            estimate_text_tokens(bytes)
        },
        Json::Array(items) => {
            let ghost models = value@->Array_0;
            let ghost weights = items_tokens(models);
            let mut total: u64 = 0;
            let mut i: usize = 0;
            while i < items.len()
                invariant
                    i <= items.len(),
                    *value == Json::Array(*items),
                    weights.len() == items.len(),
                    weights == items_tokens(models),
                    models.len() == items.len(),
                    forall|j: int| 0 <= j < items.len() ==> #[trigger] models[j] == items[j]@,
                    total == held(list_sum(weights.take(i as int))),
                decreases items.len() - i,
            {
                assert(weights.take(i + 1).drop_last() =~= weights.take(i as int));
                assert(models[i as int] == items[i as int]@);
                assert(decreases_to!(*value => value->Array_0));
                assert(decreases_to!(*items => items[i as int]));
                total = total.saturating_add(estimate_json_input_tokens(&items[i]));
                i += 1;
            }
            assert(weights.take(i as int) =~= weights);
            total
        },
        Json::Object(fields) => {
            let ghost all = Json::fields_model(*fields, fields.len() as nat);
            let mut total: u64 = 0;
            let mut i: usize = fields.len();
            assert(weights_from(*fields, i as int) =~= Map::<Seq<char>, nat>::empty());
            while i > 0
                invariant
                    i <= fields.len(),
                    *value == Json::Object(*fields),
                    all == Json::fields_model(*fields, fields.len() as nat),
                    weights_from(*fields, i as int).dom().finite(),
                    total == held(map_sum(weights_from(*fields, i as int))),
                decreases i,
            {
                let ghost before = weights_from(*fields, i as int);
                i -= 1;
                let ghost key = fields[i as int].0@;
                let ghost after = weights_from(*fields, i as int);
                let prevails = !listed_after(fields, i);
                proof {
                    assert(fields[i as int].0@ == key);
                    assert forall|other: Seq<char>|
                        after.contains_key(other) == (other == key || before.contains_key(other)) by {
                        if after.contains_key(other) && other != key {
                            let j = choose|j: int|
                                i <= j < fields.len() && (#[trigger] fields[j]).0@ == other;
                            assert(i + 1 <= j < fields.len() && fields[j].0@ == other);
                        }
                        if before.contains_key(other) {
                            let j = choose|j: int|
                                i + 1 <= j < fields.len() && (#[trigger] fields[j]).0@ == other;
                            assert(i <= j < fields.len() && fields[j].0@ == other);
                        }
                    }
                }
                if prevails {
                    proof {
                        last_entry_prevails(*fields, i as int, fields.len() as nat);
                        assert(after.dom() =~= before.dom().insert(key));
                        assert(after.remove(key) =~= before);
                        map_sum_without(after, key);
                        assert(decreases_to!(*value => value->Object_0));
                        assert(decreases_to!(*fields => fields[i as int]));
                        assert(decreases_to!(fields[i as int] => fields[i as int].1));
                    }
                    total = total.saturating_add(estimate_json_input_tokens(&fields[i].1));
                } else {
                    assert(after =~= before);
                }
            }
            proof {
                bound_is_listed(*fields, fields.len() as nat, Seq::empty());
                assert forall|key: Seq<char>|
                    all.contains_key(key) == weights_from(*fields, 0).contains_key(key) by {
                    bound_is_listed(*fields, fields.len() as nat, key);
                }
                assert(fields_tokens(all) =~= weights_from(*fields, 0));
                assert(value@ == JsonModel::Object(all));
            }
            total
        },
        _ => 0,
    }
}

/// Whether the key of an entry is listed again after it.
fn listed_after(fields: &Vec<(String, Json)>, at: usize) -> (listed: bool)
    requires
        at < fields.len(),
    ensures
        listed == exists|j: int|
            at < j < fields.len() && (#[trigger] fields[j]).0@ == fields[at as int].0@,
{
    let mut j: usize = at + 1;
    while j < fields.len()
        invariant
            at < j <= fields.len(),
            forall|k: int| at < k < j ==> (#[trigger] fields[k]).0@ != fields[at as int].0@,
        decreases fields.len() - j,
    {
        if same_text(fields[j].0.as_str(), fields[at].0.as_str()) {
            assert(fields[j as int].0@ == fields[at as int].0@);
            return true;
        }
        j += 1;
    }
    false
}

// ---------------------------------------------------------------------------
// Requests
// ---------------------------------------------------------------------------

/// The texts of a list of keys.
pub open spec fn key_texts(keys: Seq<&str>) -> Seq<Seq<char>> {
    Seq::new(keys.len(), |i: int| keys[i]@)
}

/// The tokens of the members of an object under some keys.
pub open spec fn members_tokens(value: JsonModel, keys: Seq<Seq<char>>) -> nat
    decreases keys.len(),
{
    if keys.len() == 0 {
        0
    } else {
        members_tokens(value, keys.drop_last()) + match value.field(keys.last()) {
            Some(member) => json_tokens(member),
            None => 0,
        }
    }
}

/// Estimates the tokens of the members of an object under some keys.
pub fn estimate_object_fields_tokens(value: &Json, fields: &[&str]) -> (tokens: u64)
    ensures
        tokens == held(members_tokens(value@, key_texts(fields@))),
{
    let mut total: u64 = 0;
    let mut i: usize = 0;
    while i < fields.len()
        invariant
            i <= fields.len(),
            total == held(members_tokens(value@, key_texts(fields@).take(i as int))),
        decreases fields.len() - i,
    {
        assert(key_texts(fields@).take(i + 1).drop_last() =~= key_texts(fields@).take(i as int));
        match value.get(fields[i]) {
            Some(member) => {
                total = total.saturating_add(estimate_json_input_tokens(member));
            },
            None => {},
        }
        i += 1;
    }
    assert(key_texts(fields@).take(i as int) =~= key_texts(fields@));
    total
}

/// Estimates the tokens of the members of a value under some keys; only objects
/// have any.
pub fn estimate_json_fields_tokens(value: &Json, fields: &[&str]) -> (tokens: u64)
    ensures
        tokens == held(members_tokens(value@, key_texts(fields@))),
{
    estimate_object_fields_tokens(value, fields)
}

/// The tokens that a chat message is taken for: those of the parts that the
/// model sees.
pub open spec fn message_tokens(message: JsonModel) -> nat {
    if message is Object {
        members_tokens(
            message,
            seq![
                "role"@,
                "name"@,
                "content"@,
                "tool_call_id"@,
                "tool_calls"@,
                "function_call"@,
            ],
        )
    } else {
        json_tokens(message)
    }
}

/// The tokens that the messages of a chat are taken for.
pub open spec fn messages_tokens(messages: JsonModel) -> nat {
    match messages {
        JsonModel::Array(items) => list_sum(
            Seq::new(items.len(), |i: int| message_tokens(items[i])),
        ),
        _ => json_tokens(messages),
    }
}

/// The tokens that the input of a request is taken for, where it is under
/// `param`.
pub open spec fn input_tokens(param: Seq<char>, request: JsonModel) -> nat {
    if param == "messages"@ {
        let messages = match request.field("messages"@) {
            Some(messages) => messages_tokens(messages),
            None => 0,
        };
        messages + members_tokens(request, seq!["tools"@, "functions"@])
    } else if param == "prompt"@ {
        match request.field("prompt"@) {
            Some(prompt) => json_tokens(prompt),
            None => 0,
        }
    } else {
        0
    }
}

/// Estimates the tokens of one chat message.
pub fn estimate_chat_message_tokens(value: &Json) -> (tokens: u64)
    ensures
        tokens == held(message_tokens(value@)),
{
    if value.is_object() {
        let keys = ["role", "name", "content", "tool_call_id", "tool_calls", "function_call"];
        assert(key_texts(keys@) =~= seq![
            "role"@,
            "name"@,
            "content"@,
            "tool_call_id"@,
            "tool_calls"@,
            "function_call"@,
        ]);
        estimate_object_fields_tokens(value, keys.as_slice())
    } else {
        estimate_json_input_tokens(value)
    }
}

/// Estimates the tokens of the messages of a chat.
pub fn estimate_chat_messages_tokens(value: &Json) -> (tokens: u64)
    ensures
        tokens == held(messages_tokens(value@)),
{
    match value.as_array() {
        Some(items) => {
            let ghost models = value@->Array_0;
            let ghost weights = Seq::new(models.len(), |i: int| message_tokens(models[i]));
            let mut total: u64 = 0;
            let mut i: usize = 0;
            while i < items.len()
                invariant
                    i <= items.len(),
                    models.len() == items.len(),
                    forall|j: int| 0 <= j < items.len() ==> #[trigger] models[j] == items[j]@,
                    weights == Seq::new(models.len(), |i: int| message_tokens(models[i])),
                    total == held(list_sum(weights.take(i as int))),
                decreases items.len() - i,
            {
                assert(weights.take(i + 1).drop_last() =~= weights.take(i as int));
                assert(models[i as int] == items[i as int]@);
                total = total.saturating_add(estimate_chat_message_tokens(&items[i]));
                i += 1;
            }
            assert(weights.take(i as int) =~= weights);
            total
        },
        None => estimate_json_input_tokens(value),
    }
}

/// Estimates the tokens of the input of a chat request.
pub fn estimate_chat_request_input_tokens(value: &Json) -> (tokens: u64)
    ensures
        tokens == held(input_tokens("messages"@, value@)),
{
    let message_tokens: u64 = match value.get("messages") {
        Some(messages) => estimate_chat_messages_tokens(messages),
        None => 0,
    };
    let keys = ["tools", "functions"];
    assert(key_texts(keys@) =~= seq!["tools"@, "functions"@]);
    message_tokens.saturating_add(estimate_json_fields_tokens(value, keys.as_slice()))
}

/// Estimates the tokens of the input of a request.
pub fn estimate_request_input_tokens(param: &str, value: &Json) -> (tokens: u64)
    ensures
        tokens == held(input_tokens(param@, value@)),
{
    if same_text(param, "messages") {
        return estimate_chat_request_input_tokens(value);
    }
    if same_text(param, "prompt") {
        return match value.get("prompt") {
            Some(prompt) => estimate_json_input_tokens(prompt),
            None => 0,
        };
    }
    0
}

/// The member that a path of keys leads to.
pub open spec fn member_at(value: JsonModel, path: Seq<Seq<char>>) -> Option<JsonModel>
    decreases path.len(),
{
    if path.len() == 0 {
        Some(value)
    } else {
        match member_at(value, path.drop_last()) {
            Some(parent) => parent.field(path.last()),
            None => None,
        }
    }
}

/// The whole number that a path of keys leads to.
pub open spec fn number_at(value: JsonModel, path: Seq<Seq<char>>) -> Option<u64> {
    match member_at(value, path) {
        Some(member) => member.as_unsigned(),
        None => None,
    }
}

proof fn lost_paths_stay_lost(value: JsonModel, path: Seq<Seq<char>>, count: int)
    requires
        0 <= count <= path.len(),
        member_at(value, path.take(count)) is None,
    ensures
        member_at(value, path) is None,
    decreases path.len() - count,
{
    if count == path.len() {
        assert(path.take(count) =~= path);
    } else {
        assert(path.take(count + 1).drop_last() =~= path.take(count));
        lost_paths_stay_lost(value, path, count + 1);
    }
}

/// Reads the whole number that a path of keys leads to.
pub fn numeric_json_path(value: &Json, path: &[&str]) -> (number: Option<u64>)
    ensures
        number == number_at(value@, key_texts(path@)),
{
    let mut current = value;
    let mut i: usize = 0;
    while i < path.len()
        invariant
            i <= path.len(),
            member_at(value@, key_texts(path@).take(i as int)) == Some(current@),
        decreases path.len() - i,
    {
        assert(key_texts(path@).take(i + 1).drop_last() =~= key_texts(path@).take(i as int));
        match current.get(path[i]) {
            Some(member) => {
                current = member;
            },
            None => {
                proof {
                    lost_paths_stay_lost(value@, key_texts(path@), i + 1);
                }
                return None;
            },
        }
        i += 1;
    }
    assert(key_texts(path@).take(i as int) =~= key_texts(path@));
    current.as_u64()
}

/// The larger of a number and a number that may be missing.
pub open spec fn larger(a: u64, b: Option<u64>) -> u64 {
    match b {
        Some(b) => if b > a {
            b
        } else {
            a
        },
        None => a,
    }
}

fn max_with(a: u64, b: Option<u64>) -> (most: u64)
    ensures
        most == larger(a, b),
{
    match b {
        Some(b) => if b > a {
            b
        } else {
            a
        },
        None => a,
    }
}

/// The largest budget for thinking that a request states anywhere.
pub open spec fn thinking_budget(request: JsonModel) -> u64 {
    let plain = larger(
        larger(
            larger(
                larger(0, number_at(request, seq!["thinking"@, "budget_tokens"@])),
                number_at(request, seq!["thinking_token_budget"@]),
            ),
            number_at(request, seq!["thinking_budget"@]),
        ),
        number_at(request, seq!["chat_template_kwargs"@, "thinking_budget"@]),
    );
    larger(
        larger(
            larger(
                larger(plain, number_at(request, seq!["extra_body"@, "thinking_budget"@])),
                number_at(request, seq!["extra_body"@, "thinking_token_budget"@]),
            ),
            number_at(request, seq!["extra_body"@, "thinking"@, "budget_tokens"@]),
        ),
        number_at(request, seq!["extra_body"@, "chat_template_kwargs"@, "thinking_budget"@]),
    )
}

/// Reads the largest budget for thinking that a request states anywhere.
pub fn estimate_thinking_budget_tokens(value: &Json) -> (tokens: u64)
    ensures
        tokens == thinking_budget(value@),
{
    let p1 = ["thinking", "budget_tokens"];
    let p2 = ["thinking_token_budget"];
    let p3 = ["thinking_budget"];
    let p4 = ["chat_template_kwargs", "thinking_budget"];
    let p5 = ["extra_body", "thinking_budget"];
    let p6 = ["extra_body", "thinking_token_budget"];
    let p7 = ["extra_body", "thinking", "budget_tokens"];
    let p8 = ["extra_body", "chat_template_kwargs", "thinking_budget"];
    proof {
        assert(key_texts(p1@) =~= seq!["thinking"@, "budget_tokens"@]);
        assert(key_texts(p2@) =~= seq!["thinking_token_budget"@]);
        assert(key_texts(p3@) =~= seq!["thinking_budget"@]);
        assert(key_texts(p4@) =~= seq!["chat_template_kwargs"@, "thinking_budget"@]);
        assert(key_texts(p5@) =~= seq!["extra_body"@, "thinking_budget"@]);
        assert(key_texts(p6@) =~= seq!["extra_body"@, "thinking_token_budget"@]);
        assert(key_texts(p7@) =~= seq!["extra_body"@, "thinking"@, "budget_tokens"@]);
        assert(key_texts(p8@) =~= seq![
            "extra_body"@,
            "chat_template_kwargs"@,
            "thinking_budget"@,
        ]);
    }
    let mut most: u64 = max_with(0, numeric_json_path(value, p1.as_slice()));
    most = max_with(most, numeric_json_path(value, p2.as_slice()));
    most = max_with(most, numeric_json_path(value, p3.as_slice()));
    most = max_with(most, numeric_json_path(value, p4.as_slice()));
    most = max_with(most, numeric_json_path(value, p5.as_slice()));
    most = max_with(most, numeric_json_path(value, p6.as_slice()));
    most = max_with(most, numeric_json_path(value, p7.as_slice()));
    max_with(most, numeric_json_path(value, p8.as_slice()))
}

/// The output tokens that a request reserves: the largest cap or budget that it
/// states.
pub open spec fn reserved_tokens(request: JsonModel) -> u64 {
    let cap = larger(
        larger(
            larger(0, crate::json::unsigned_field(request, "max_tokens"@)),
            crate::json::unsigned_field(request, "max_completion_tokens"@),
        ),
        crate::json::unsigned_field(request, "max_output_tokens"@),
    );
    larger(cap, Some(thinking_budget(request)))
}

/// Estimates the output tokens that a request reserves.
pub fn estimate_reserved_output_tokens(value: &Json) -> (tokens: u64)
    ensures
        tokens == reserved_tokens(value@),
{
    let mut cap: u64 = max_with(0, value.get_u64("max_tokens"));
    cap = max_with(cap, value.get_u64("max_completion_tokens"));
    cap = max_with(cap, value.get_u64("max_output_tokens"));
    max_with(cap, Some(estimate_thinking_budget_tokens(value)))
}

// ---------------------------------------------------------------------------
// The preflight
// ---------------------------------------------------------------------------

/// What a request is estimated to need of a context window.
#[derive(Clone, Copy)]
pub struct ContextBudgetEstimate {
    pub param: &'static str,
    pub context_window: u64,
    pub input_tokens: u64,
    pub reserved_output_tokens: u64,
    pub safety_margin: u64,
    pub total_tokens: u64,
}

/// The meaning of an estimate.
#[verifier::ext_equal]
pub struct EstimateModel {
    pub param: Seq<char>,
    pub context_window: u64,
    pub input_tokens: u64,
    pub reserved_output_tokens: u64,
    pub safety_margin: u64,
    pub total_tokens: u64,
}

impl View for ContextBudgetEstimate {
    type V = EstimateModel;

    open spec fn view(&self) -> EstimateModel {
        EstimateModel {
            param: self.param@,
            context_window: self.context_window,
            input_tokens: self.input_tokens,
            reserved_output_tokens: self.reserved_output_tokens,
            safety_margin: self.safety_margin,
            total_tokens: self.total_tokens,
        }
    }
}

/// The metadata of an estimate.
pub open spec fn estimate_bindings(estimate: EstimateModel, status: Seq<char>) -> Bindings {
    Bindings::empty().insert("context_budget_preflight"@, status).insert(
        "context_budget_param"@,
        estimate.param,
    ).insert("context_budget_window_tokens"@, decimal(estimate.context_window as nat)).insert(
        "context_budget_input_estimate_tokens"@,
        decimal(estimate.input_tokens as nat),
    ).insert(
        "context_budget_reserved_output_tokens"@,
        decimal(estimate.reserved_output_tokens as nat),
    ).insert("context_budget_safety_margin_tokens"@, decimal(estimate.safety_margin as nat)).insert(
        "context_budget_total_estimate_tokens"@,
        decimal(estimate.total_tokens as nat),
    )
}

/// The message to a client whose request does not fit.
pub open spec fn estimate_message(estimate: EstimateModel) -> Seq<char> {
    "Input plus reserved output exceeds upstream context window; lower the caller auto-compaction threshold, input tokens, or requested max_tokens. estimated_total_tokens="@
        + decimal(estimate.total_tokens as nat) + " context_window_tokens="@ + decimal(
        estimate.context_window as nat,
    ) + " input_tokens="@ + decimal(estimate.input_tokens as nat) + " reserved_output_tokens="@
        + decimal(estimate.reserved_output_tokens as nat) + " safety_margin_tokens="@ + decimal(
        estimate.safety_margin as nat,
    )
}

impl ContextBudgetEstimate {
    /// Whether the request does not fit.
    pub fn exceeds_window(self) -> (exceeds: bool)
        ensures
            exceeds == is_over_budget(self@),
    {
        self.total_tokens > self.context_window
    }

    /// The metadata of the estimate.
    pub fn metadata(self, status: &str) -> (metadata: Metadata)
        ensures
            metadata@ == estimate_bindings(self@, status@),
    {
        let mut metadata = Metadata::new();
        metadata.set("context_budget_preflight", status);
        metadata.set("context_budget_param", self.param);
        metadata.set_number("context_budget_window_tokens", self.context_window);
        metadata.set_number("context_budget_input_estimate_tokens", self.input_tokens);
        metadata.set_number("context_budget_reserved_output_tokens", self.reserved_output_tokens);
        metadata.set_number("context_budget_safety_margin_tokens", self.safety_margin);
        metadata.set_number("context_budget_total_estimate_tokens", self.total_tokens);
        metadata
    }

    /// The message to a client whose request does not fit.
    pub fn message(self) -> (message: String)
        ensures
            message@ == estimate_message(self@),
    {
        let mut message =
            "Input plus reserved output exceeds upstream context window; lower the caller auto-compaction threshold, input tokens, or requested max_tokens. estimated_total_tokens=".to_owned();
        message.append(decimal_text(self.total_tokens).as_str());
        message.append(" context_window_tokens=");
        message.append(decimal_text(self.context_window).as_str());
        message.append(" input_tokens=");
        message.append(decimal_text(self.input_tokens).as_str());
        message.append(" reserved_output_tokens=");
        message.append(decimal_text(self.reserved_output_tokens).as_str());
        message.append(" safety_margin_tokens=");
        message.append(decimal_text(self.safety_margin).as_str());
        message
    }
}

/// The member that holds the input of a request, of the requests that are
/// estimated.
pub open spec fn budget_param(method: Seq<char>, path: Seq<char>) -> Option<Seq<char>> {
    if method != "POST"@ {
        None
    } else if path == "/v1/chat/completions"@ {
        Some("messages"@)
    } else if path == "/v1/completions"@ {
        Some("prompt"@)
    } else {
        None
    }
}

/// Names the member that holds the input of a request, of the requests that are
/// estimated.
pub fn context_budget_param(method: &str, path: &str) -> (param: Option<&'static str>)
    ensures
        crate::text::opt_str_chars(param) == budget_param(method@, path@),
{
    if !same_text(method, "POST") {
        return None;
    }
    if same_text(path, "/v1/chat/completions") {
        return Some("messages");
    }
    if same_text(path, "/v1/completions") {
        return Some("prompt");
    }
    None
}

/// The input tokens of a request body: those of its input, or of all of it where
/// it is no JSON.
pub open spec fn body_input_tokens(param: Seq<char>, body: Seq<u8>) -> u64 {
    match parsed_json(body) {
        Ok(request) => held(input_tokens(param, request)),
        Err(_) => held(bytes_tokens(body)),
    }
}

/// The output tokens that a request body reserves.
pub open spec fn body_reserved_tokens(body: Seq<u8>) -> u64 {
    match parsed_json(body) {
        Ok(request) => reserved_tokens(request),
        Err(_) => 0,
    }
}

/// All tokens of a request.
pub open spec fn all_tokens(input: u64, reserved: u64, safety_margin: u64) -> u64 {
    held((input + reserved + safety_margin) as nat)
}

/// The estimate of a request, of which the input is in what the client sent, and
/// the output in what the upstream is sent.
pub open spec fn request_estimate(
    param: Seq<char>,
    original_body: Seq<u8>,
    upstream_body: Seq<u8>,
    context_window: u64,
    safety_margin: u64,
) -> EstimateModel {
    let input_tokens = body_input_tokens(param, original_body);
    let reserved_output_tokens = body_reserved_tokens(upstream_body);
    EstimateModel {
        param,
        context_window,
        input_tokens,
        reserved_output_tokens,
        safety_margin,
        total_tokens: all_tokens(input_tokens, reserved_output_tokens, safety_margin),
    }
}

/// Whether an estimate does not fit its window.
pub open spec fn is_over_budget(estimate: EstimateModel) -> bool {
    estimate.total_tokens > estimate.context_window
}

/// Estimates a request, of which the input is in what the client sent, and the
/// output in what the upstream is sent.
pub fn estimate_request(
    param: &'static str,
    original_body: &[u8],
    upstream_body: &[u8],
    context_window: u64,
    safety_margin: u64,
) -> (estimate: ContextBudgetEstimate)
    ensures
        estimate@ == request_estimate(
            param@,
            original_body@,
            upstream_body@,
            context_window,
            safety_margin,
        ),
{
    let input_tokens: u64 = match parse_json(original_body) {
        Ok(request) => estimate_request_input_tokens(param, &request),
        Err(_) => estimate_text_tokens(original_body),
    };
    let reserved_output_tokens: u64 = match parse_json(upstream_body) {
        Ok(request) => estimate_reserved_output_tokens(&request),
        Err(_) => 0,
    };
    let total_tokens: u64 = input_tokens.saturating_add(reserved_output_tokens).saturating_add(
        safety_margin,
    );
    ContextBudgetEstimate {
        param,
        context_window,
        input_tokens,
        reserved_output_tokens,
        safety_margin,
        total_tokens,
    }
}

/// What is recorded of a request that was not estimated.
pub open spec fn not_estimated(status: Seq<char>) -> Bindings {
    Bindings::empty().insert("context_budget_preflight"@, status)
}

/// Refuses a request that does not fit the context window, where that is known.
pub fn context_budget_preflight(
    method: &str,
    path: &str,
    original_body: &[u8],
    upstream_body: &[u8],
    context_window: Option<u64>,
    safety_margin: u64,
) -> (checked: Result<Metadata, ProxyError>)
    ensures
        match (budget_param(method@, path@), context_window) {
            (None, _) => checked is Ok && checked->Ok_0@ == not_estimated("not_applicable"@),
            (Some(_), None) => checked is Ok && checked->Ok_0@ == not_estimated(
                "skipped_no_context_window"@,
            ),
            (Some(param), Some(context_window)) => {
                let estimate = request_estimate(
                    param,
                    original_body@,
                    upstream_body@,
                    context_window,
                    safety_margin,
                );
                match checked {
                    Ok(metadata) => {
                        &&& !is_over_budget(estimate)
                        &&& metadata@ == estimate_bindings(estimate, "allowed"@)
                    },
                    Err(error) => {
                        &&& is_over_budget(estimate)
                        &&& is_invalid_request(
                            error.kind,
                            estimate_message(estimate),
                            param,
                            "context_budget_exceeded"@,
                        )
                        &&& error@ == (ProxyErrorModel {
                            request_metadata: Some(estimate_bindings(estimate, "rejected"@)),
                            ..bare_error(error.kind)
                        })
                    },
                }
            },
        },
        method@ == "POST"@ && path@ == "/v1/completions"@ && (context_window matches Some(window)
            && window < u64::MAX && (parsed_json(original_body@) matches Ok(JsonModel::Object(
            fields,
        )) && fields.contains_key("prompt"@) && (fields["prompt"@] matches JsonModel::Text(text)
            && encode_utf8(text).len() > 4 * window))) ==> checked is Err,
{
    proof {
        chats_and_completions_are_estimated(method@, path@);
        match (context_window, parsed_json(original_body@)) {
            (Some(window), Ok(JsonModel::Object(fields))) => {
                if fields.contains_key("prompt"@) && fields["prompt"@] is Text && encode_utf8(
                    fields["prompt"@]->Text_0,
                ).len() > 4 * window && window < u64::MAX {
                    inputs_that_outgrow_the_window_are_refused(
                        original_body@,
                        upstream_body@,
                        window,
                        safety_margin,
                        fields,
                        fields["prompt"@]->Text_0,
                    );
                }
            },
            _ => {},
        }
    }
    let mut metadata = Metadata::new();
    let param = match context_budget_param(method, path) {
        Some(param) => param,
        None => {
            metadata.set("context_budget_preflight", "not_applicable");
            return Ok(metadata);
        },
    };
    let context_window: u64 = match context_window {
        Some(context_window) => context_window,
        None => {
            metadata.set("context_budget_preflight", "skipped_no_context_window");
            return Ok(metadata);
        },
    };
    let estimate = estimate_request(
        param,
        original_body,
        upstream_body,
        context_window,
        safety_margin,
    );
    if estimate.exceeds_window() {
        return Err(
            ProxyError::context_budget_exceeded(
                estimate.message(),
                param,
                estimate.metadata("rejected"),
            ),
        );
    }
    Ok(estimate.metadata("allowed"))
}

/// A request that fits a window fits every larger one, and one that is refused
/// is refused under every larger margin.
pub proof fn budgets_are_monotonic(
    param: Seq<char>,
    original_body: Seq<u8>,
    upstream_body: Seq<u8>,
    window: u64,
    larger_window: u64,
    margin: u64,
    larger_margin: u64,
)
    requires
        window <= larger_window,
        margin <= larger_margin,
    ensures
        !is_over_budget(request_estimate(param, original_body, upstream_body, window, margin))
            ==> !is_over_budget(
            request_estimate(param, original_body, upstream_body, larger_window, margin),
        ),
        is_over_budget(request_estimate(param, original_body, upstream_body, window, margin))
            ==> is_over_budget(
            request_estimate(param, original_body, upstream_body, window, larger_margin),
        ),
{
}

proof fn list_sums_add_up(first: Seq<nat>, second: Seq<nat>)
    ensures
        list_sum(first + second) == list_sum(first) + list_sum(second),
    decreases second.len(),
{
    if second.len() == 0 {
        assert(first + second =~= first);
    } else {
        list_sums_add_up(first, second.drop_last());
        assert((first + second).drop_last() =~= first + second.drop_last());
    }
}

/// Words are what stands between white space: a text without any is one word, and two
/// texts with white space between them have the words of both.
pub proof fn words_stand_between_white_space(first: Seq<char>, space: char, second: Seq<char>)
    requires
        is_space(space),
    ensures
        words(first.push(space) + second) == words(first) + words(second),
        words(Seq::empty()) == 0,
        first.len() > 0 && (forall|i: int| 0 <= i < first.len() ==> !is_space(#[trigger] first[i]))
            ==> words(first) == 1,
    decreases first.len() + second.len(),
{
    let whole = first.push(space) + second;
    if second.len() == 0 {
        assert(whole.drop_last() =~= first);
        assert(whole.last() == space);
    } else {
        words_stand_between_white_space(first, space, second.drop_last());
        assert(whole.drop_last() =~= first.push(space) + second.drop_last());
        assert(whole.last() == second.last());
        if second.len() == 1 {
            assert(whole[whole.len() - 2] == space);
        } else {
            assert(whole[whole.len() - 2] == second[second.len() - 2]);
        }
    }
    if first.len() > 1 && (forall|i: int|
        0 <= i < first.len() ==> !is_space(#[trigger] first[i])) {
        let before = first.drop_last();
        assert forall|i: int| 0 <= i < before.len() implies !is_space(#[trigger] before[i]) by {
            assert(before[i] == first[i]);
        }
        words_stand_between_white_space(before, space, Seq::empty());
        assert(!is_space(first[first.len() - 2]));
    } else if first.len() == 1 {
        assert(first.drop_last() =~= Seq::<char>::empty());
        assert(words(first.drop_last()) == 0);
    }
}

/// A text weighs a token for every four bytes, begun ones counted, and no fewer than it
/// has words; and no more than the larger of both. What is no text and holds none
/// weighs nothing.
pub proof fn texts_weigh_their_bytes_and_words(text: Seq<char>, value: JsonModel)
    ensures
        ({
            let tokens = json_tokens(JsonModel::Text(text));
            let bytes = encode_utf8(text).len();
            &&& 4 * tokens >= bytes
            &&& tokens >= words(text)
            &&& 4 * tokens <= bytes + 3 || tokens == words(text)
        }),
        !(value is Text) && !(value is Array) && !(value is Object) ==> json_tokens(value) == 0,
{
}

/// Values weigh as much together as each of them: a list as much as its parts, and an
/// object as much as any of its members and all the others.
pub proof fn values_weigh_together(
    first: Seq<JsonModel>,
    second: Seq<JsonModel>,
    value: JsonModel,
    fields: Map<Seq<char>, JsonModel>,
    key: Seq<char>,
)
    requires
        fields.dom().finite(),
        fields.contains_key(key),
    ensures
        json_tokens(JsonModel::Array(Seq::empty())) == 0,
        json_tokens(JsonModel::Array(seq![value])) == json_tokens(value),
        json_tokens(JsonModel::Array(first + second)) == json_tokens(JsonModel::Array(first))
            + json_tokens(JsonModel::Array(second)),
        json_tokens(JsonModel::Object(Map::empty())) == 0,
        json_tokens(JsonModel::Object(fields)) == json_tokens(JsonModel::Object(fields.remove(key)))
            + json_tokens(fields[key]),
{
    assert(items_tokens(Seq::<JsonModel>::empty()) =~= Seq::<nat>::empty());
    assert(items_tokens(seq![value]) =~= seq![json_tokens(value)]);
    assert(seq![json_tokens(value)].drop_last() =~= Seq::<nat>::empty());
    assert(list_sum(seq![json_tokens(value)]) == list_sum(Seq::<nat>::empty()) + json_tokens(value));
    assert(items_tokens(first + second) =~= items_tokens(first) + items_tokens(second));
    list_sums_add_up(items_tokens(first), items_tokens(second));
    assert(fields_tokens(Map::<Seq<char>, JsonModel>::empty()) =~= Map::<Seq<char>, nat>::empty());
    assert(fields_tokens(fields).dom() =~= fields.dom());
    map_sum_without(fields_tokens(fields), key);
    assert(fields_tokens(fields).remove(key) =~= fields_tokens(fields.remove(key)));
}

/// The tokens of the member of an object under a key, if it has one.
pub open spec fn weight_under(fields: Map<Seq<char>, JsonModel>, key: Seq<char>) -> nat {
    if fields.contains_key(key) {
        json_tokens(fields[key])
    } else {
        0
    }
}

/// A chat message weighs what the model sees of it: its role, name and content, and the
/// tool calls in it. A message that is no object weighs all of it.
pub proof fn messages_weigh_what_is_seen(fields: Map<Seq<char>, JsonModel>, plain: JsonModel)
    ensures
        message_tokens(JsonModel::Object(fields)) == weight_under(fields, "role"@) + weight_under(
            fields,
            "name"@,
        ) + weight_under(fields, "content"@) + weight_under(fields, "tool_call_id"@)
            + weight_under(fields, "tool_calls"@) + weight_under(fields, "function_call"@),
        !(plain is Object) ==> message_tokens(plain) == json_tokens(plain),
{
    let message = JsonModel::Object(fields);
    let k6 = seq![
        "role"@,
        "name"@,
        "content"@,
        "tool_call_id"@,
        "tool_calls"@,
        "function_call"@,
    ];
    let k5 = k6.drop_last();
    let k4 = k5.drop_last();
    let k3 = k4.drop_last();
    let k2 = k3.drop_last();
    let k1 = k2.drop_last();
    assert(members_tokens(message, k1.drop_last()) == 0);
    assert(members_tokens(message, k1) == weight_under(fields, "role"@));
    assert(members_tokens(message, k2) == members_tokens(message, k1) + weight_under(
        fields,
        "name"@,
    ));
    assert(members_tokens(message, k3) == members_tokens(message, k2) + weight_under(
        fields,
        "content"@,
    ));
    assert(members_tokens(message, k4) == members_tokens(message, k3) + weight_under(
        fields,
        "tool_call_id"@,
    ));
    assert(members_tokens(message, k5) == members_tokens(message, k4) + weight_under(
        fields,
        "tool_calls"@,
    ));
}

/// The input of a chat is all of its messages, its tools and its functions.
pub proof fn chats_weigh_messages_and_tools(
    fields: Map<Seq<char>, JsonModel>,
    first: Seq<JsonModel>,
    second: Seq<JsonModel>,
    message: JsonModel,
)
    ensures
        messages_tokens(JsonModel::Array(first + second)) == messages_tokens(
            JsonModel::Array(first),
        ) + messages_tokens(JsonModel::Array(second)),
        messages_tokens(JsonModel::Array(seq![message])) == message_tokens(message),
        input_tokens("messages"@, JsonModel::Object(fields)) == (if fields.contains_key(
            "messages"@,
        ) {
            messages_tokens(fields["messages"@])
        } else {
            0
        }) + weight_under(fields, "tools"@) + weight_under(fields, "functions"@),
{
    let weigh = |items: Seq<JsonModel>| Seq::new(items.len(), |i: int| message_tokens(items[i]));
    assert(weigh(first + second) =~= weigh(first) + weigh(second));
    list_sums_add_up(weigh(first), weigh(second));
    assert(weigh(seq![message]) =~= seq![message_tokens(message)]);
    assert(seq![message_tokens(message)].drop_last() =~= Seq::<nat>::empty());
    assert(list_sum(seq![message_tokens(message)]) == list_sum(Seq::<nat>::empty())
        + message_tokens(message));
    let request = JsonModel::Object(fields);
    let both = seq!["tools"@, "functions"@];
    assert(members_tokens(request, both.drop_last().drop_last()) == 0);
    assert(members_tokens(request, both.drop_last()) == weight_under(fields, "tools"@));
}

/// The prompt of a completion counts in full: no fewer tokens than a fourth of its
/// bytes and than its words, and all the texts of a list of prompts.
pub proof fn prompts_count_in_full(fields: Map<Seq<char>, JsonModel>, text: Seq<char>)
    requires
        fields.contains_key("prompt"@),
    ensures
        input_tokens("prompt"@, JsonModel::Object(fields)) == json_tokens(fields["prompt"@]),
        fields["prompt"@] == JsonModel::Text(text) ==> 4 * input_tokens(
            "prompt"@,
            JsonModel::Object(fields),
        ) >= encode_utf8(text).len(),
{
    reveal_strlit("prompt");
    reveal_strlit("messages");
    assert("prompt"@.len() != "messages"@.len());
}

/// A request is over budget exactly where its input, what it reserves and the margin
/// exceed the window together.
pub proof fn budgets_are_sums(
    param: Seq<char>,
    original_body: Seq<u8>,
    upstream_body: Seq<u8>,
    window: u64,
    margin: u64,
)
    ensures
        ({
            let estimate = request_estimate(param, original_body, upstream_body, window, margin);
            let needed = estimate.input_tokens + estimate.reserved_output_tokens + margin;
            &&& is_over_budget(estimate) <==> needed > window && window < u64::MAX
            &&& needed <= u64::MAX ==> estimate.total_tokens == needed
            &&& parsed_json(original_body) matches Ok(request) ==> estimate.input_tokens == held(
                input_tokens(param, request),
            )
            &&& parsed_json(original_body) is Err ==> 4 * estimate.input_tokens
                >= original_body.len() || estimate.input_tokens == u64::MAX
            &&& parsed_json(upstream_body) matches Ok(request) ==> estimate.reserved_output_tokens
                == reserved_tokens(request)
            &&& parsed_json(upstream_body) is Err ==> estimate.reserved_output_tokens == 0
        }),
{
}

/// A completion whose prompt alone outgrows the context window is refused, and so is a
/// chat with such a message, whatever the margin and whatever is reserved.
pub proof fn inputs_that_outgrow_the_window_are_refused(
    original_body: Seq<u8>,
    upstream_body: Seq<u8>,
    window: u64,
    margin: u64,
    fields: Map<Seq<char>, JsonModel>,
    text: Seq<char>,
)
    requires
        parsed_json(original_body) == Ok::<JsonModel, Seq<char>>(JsonModel::Object(fields)),
        encode_utf8(text).len() > 4 * window,
        window < u64::MAX,
    ensures
        fields.contains_key("prompt"@) && fields["prompt"@] == JsonModel::Text(text)
            ==> is_over_budget(
            request_estimate("prompt"@, original_body, upstream_body, window, margin),
        ),
        fields.contains_key("messages"@) && (fields["messages"@] matches JsonModel::Array(items)
            && items.len() > 0 && (items[0] matches JsonModel::Object(message)
            && message.contains_key("content"@) && message["content"@] == JsonModel::Text(text)))
            ==> is_over_budget(
            request_estimate("messages"@, original_body, upstream_body, window, margin),
        ),
{
    if fields.contains_key("prompt"@) {
        prompts_count_in_full(fields, text);
    }
    if fields.contains_key("messages"@) && (fields["messages"@] matches JsonModel::Array(items)
        && items.len() > 0 && (items[0] matches JsonModel::Object(message)
        && message.contains_key("content"@) && message["content"@] == JsonModel::Text(text))) {
        let items = fields["messages"@]->Array_0;
        let message = items[0]->Object_0;
        chats_weigh_messages_and_tools(fields, seq![items[0]], items.drop_first(), items[0]);
        assert(seq![items[0]] + items.drop_first() =~= items);
        messages_weigh_what_is_seen(message, items[0]);
        texts_weigh_their_bytes_and_words(text, items[0]);
    }
}

/// A request reserves the largest of the caps on its output and its budgets for
/// thinking, and nothing where it states none.
pub proof fn the_largest_reserve_counts(fields: Map<Seq<char>, JsonModel>, tokens: u64)
    ensures
        ({
            let request = JsonModel::Object(fields);
            let reserved = reserved_tokens(request);
            let states = |key: Seq<char>, n: u64|
                fields.contains_key(key) && fields[key] == JsonModel::Unsigned(n);
            &&& states("max_tokens"@, tokens) ==> reserved >= tokens
            &&& states("max_completion_tokens"@, tokens) ==> reserved >= tokens
            &&& states("max_output_tokens"@, tokens) ==> reserved >= tokens
            &&& reserved >= thinking_budget(request)
            &&& reserved == thinking_budget(request) || states("max_tokens"@, reserved) || states(
                "max_completion_tokens"@,
                reserved,
            ) || states("max_output_tokens"@, reserved)
        }),
{
}

/// A budget for thinking counts wherever a request states it, and the largest counts.
pub proof fn the_largest_thinking_budget_counts(request: JsonModel)
    ensures
        ({
            let budget = thinking_budget(request);
            let at = |path: Seq<Seq<char>>| number_at(request, path);
            let counts = |path: Seq<Seq<char>>| at(path) matches Some(n) ==> budget >= n;
            let p1 = seq!["thinking"@, "budget_tokens"@];
            let p2 = seq!["thinking_token_budget"@];
            let p3 = seq!["thinking_budget"@];
            let p4 = seq!["chat_template_kwargs"@, "thinking_budget"@];
            let p5 = seq!["extra_body"@, "thinking_budget"@];
            let p6 = seq!["extra_body"@, "thinking_token_budget"@];
            let p7 = seq!["extra_body"@, "thinking"@, "budget_tokens"@];
            let p8 = seq!["extra_body"@, "chat_template_kwargs"@, "thinking_budget"@];
            &&& counts(p1) && counts(p2) && counts(p3) && counts(p4)
            &&& counts(p5) && counts(p6) && counts(p7) && counts(p8)
            &&& budget == 0 || at(p1) == Some(budget) || at(p2) == Some(budget) || at(p3) == Some(
                budget,
            ) || at(p4) == Some(budget) || at(p5) == Some(budget) || at(p6) == Some(budget) || at(
                p7,
            ) == Some(budget) || at(p8) == Some(budget)
        }),
{
}

/// A path of keys is followed one key after the other.
pub proof fn paths_are_followed(
    fields: Map<Seq<char>, JsonModel>,
    key: Seq<char>,
    rest: Seq<Seq<char>>,
)
    ensures
        member_at(JsonModel::Object(fields), Seq::empty()) == Some(JsonModel::Object(fields)),
        fields.contains_key(key) ==> member_at(JsonModel::Object(fields), seq![key] + rest)
            == member_at(fields[key], rest),
        !fields.contains_key(key) ==> member_at(JsonModel::Object(fields), seq![key] + rest) is None,
    decreases rest.len(),
{
    let path = seq![key] + rest;
    if rest.len() == 0 {
        assert(path.drop_last() =~= Seq::<Seq<char>>::empty());
        assert(path.last() == key);
    } else {
        paths_are_followed(fields, key, rest.drop_last());
        assert(path.drop_last() =~= seq![key] + rest.drop_last());
        assert(path.last() == rest.last());
    }
}

/// Of the requests, chats and completions that are posted are estimated, by their
/// messages and by their prompt.
pub proof fn chats_and_completions_are_estimated(method: Seq<char>, path: Seq<char>)
    ensures
        method == "POST"@ && path == "/v1/chat/completions"@ ==> budget_param(method, path) == Some(
            "messages"@,
        ),
        method == "POST"@ && path == "/v1/completions"@ ==> budget_param(method, path) == Some(
            "prompt"@,
        ),
        method != "POST"@ || (path != "/v1/chat/completions"@ && path != "/v1/completions"@)
            ==> budget_param(method, path) is None,
{
    reveal_strlit("/v1/completions");
    reveal_strlit("/v1/chat/completions");
    assert("/v1/completions"@.len() != "/v1/chat/completions"@.len());
}

/// What is recorded of an estimate is the estimate.
pub proof fn estimates_are_recorded(
    estimate: EstimateModel,
    status: Seq<char>,
)
    ensures
        ({
            let told = estimate_bindings(estimate, status);
            &&& told.contains_key("context_budget_preflight"@) && told["context_budget_preflight"@] == status
            &&& told.contains_key("context_budget_param"@) && told["context_budget_param"@] == estimate.param
            &&& told.contains_key("context_budget_window_tokens"@) && told["context_budget_window_tokens"@] == decimal(estimate.context_window as nat)
            &&& told.contains_key("context_budget_input_estimate_tokens"@) && told["context_budget_input_estimate_tokens"@] == decimal(estimate.input_tokens as nat)
            &&& told.contains_key("context_budget_reserved_output_tokens"@) && told["context_budget_reserved_output_tokens"@] == decimal(estimate.reserved_output_tokens as nat)
            &&& told.contains_key("context_budget_safety_margin_tokens"@) && told["context_budget_safety_margin_tokens"@] == decimal(estimate.safety_margin as nat)
            &&& told.contains_key("context_budget_total_estimate_tokens"@) && told["context_budget_total_estimate_tokens"@] == decimal(estimate.total_tokens as nat)
        }),
{
    reveal_strlit("context_budget_preflight");
    reveal_strlit("context_budget_param");
    reveal_strlit("context_budget_window_tokens");
    reveal_strlit("context_budget_input_estimate_tokens");
    reveal_strlit("context_budget_reserved_output_tokens");
    reveal_strlit("context_budget_safety_margin_tokens");
    reveal_strlit("context_budget_total_estimate_tokens");
    assert("context_budget_preflight"@.len() == 24);
    assert("context_budget_param"@.len() == 20);
    assert("context_budget_window_tokens"@.len() == 28);
    assert("context_budget_input_estimate_tokens"@.len() == 36);
    assert("context_budget_reserved_output_tokens"@.len() == 37);
    assert("context_budget_safety_margin_tokens"@.len() == 35);
    assert("context_budget_total_estimate_tokens"@.len() == 36);
    assert("context_budget_input_estimate_tokens"@[15] != "context_budget_total_estimate_tokens"@[15]);
}

/// An estimate is made for the parameter, the window and the margin that it is asked
/// for.
pub proof fn estimates_are_for_what_is_asked(
    param: Seq<char>,
    original_body: Seq<u8>,
    upstream_body: Seq<u8>,
    window: u64,
    margin: u64,
)
    ensures
        ({
            let estimate = request_estimate(param, original_body, upstream_body, window, margin);
            &&& estimate.param == param
            &&& estimate.context_window == window
            &&& estimate.safety_margin == margin
        }),
{
}

/// A refused request is told each number of its estimate.
pub proof fn refused_estimates_tell_their_numbers(
    estimate: EstimateModel,
)
    ensures
        ({
            let told = estimate_message(estimate);
            &&& crate::text::has_part(told, "Input plus reserved output exceeds upstream context window; lower the caller auto-compaction threshold, input tokens, or requested max_tokens. estimated_total_tokens="@ + decimal(estimate.total_tokens as nat))
            &&& crate::text::has_part(told, " context_window_tokens="@ + decimal(estimate.context_window as nat))
            &&& crate::text::has_part(told, " input_tokens="@ + decimal(estimate.input_tokens as nat))
            &&& crate::text::has_part(told, " reserved_output_tokens="@ + decimal(estimate.reserved_output_tokens as nat))
            &&& crate::text::has_part(told, " safety_margin_tokens="@ + decimal(estimate.safety_margin as nat))
        }),
{
    let t0 = "Input plus reserved output exceeds upstream context window; lower the caller auto-compaction threshold, input tokens, or requested max_tokens. estimated_total_tokens="@ + decimal(estimate.total_tokens as nat);
    crate::text::parts_are_found_at_the_end(Seq::<char>::empty(), "Input plus reserved output exceeds upstream context window; lower the caller auto-compaction threshold, input tokens, or requested max_tokens. estimated_total_tokens="@, decimal(estimate.total_tokens as nat));
    assert(Seq::<char>::empty() + "Input plus reserved output exceeds upstream context window; lower the caller auto-compaction threshold, input tokens, or requested max_tokens. estimated_total_tokens="@ + decimal(estimate.total_tokens as nat) =~= t0);
    let t1 = t0 + " context_window_tokens="@ + decimal(estimate.context_window as nat);
    crate::text::parts_are_found_at_the_end(t0, " context_window_tokens="@, decimal(estimate.context_window as nat));
    crate::text::parts_are_found_in_more(t0, "Input plus reserved output exceeds upstream context window; lower the caller auto-compaction threshold, input tokens, or requested max_tokens. estimated_total_tokens="@ + decimal(estimate.total_tokens as nat), " context_window_tokens="@);
    crate::text::parts_are_found_in_more(t0 + " context_window_tokens="@, "Input plus reserved output exceeds upstream context window; lower the caller auto-compaction threshold, input tokens, or requested max_tokens. estimated_total_tokens="@ + decimal(estimate.total_tokens as nat), decimal(estimate.context_window as nat));
    let t2 = t1 + " input_tokens="@ + decimal(estimate.input_tokens as nat);
    crate::text::parts_are_found_at_the_end(t1, " input_tokens="@, decimal(estimate.input_tokens as nat));
    crate::text::parts_are_found_in_more(t1, "Input plus reserved output exceeds upstream context window; lower the caller auto-compaction threshold, input tokens, or requested max_tokens. estimated_total_tokens="@ + decimal(estimate.total_tokens as nat), " input_tokens="@);
    crate::text::parts_are_found_in_more(t1 + " input_tokens="@, "Input plus reserved output exceeds upstream context window; lower the caller auto-compaction threshold, input tokens, or requested max_tokens. estimated_total_tokens="@ + decimal(estimate.total_tokens as nat), decimal(estimate.input_tokens as nat));
    crate::text::parts_are_found_in_more(t1, " context_window_tokens="@ + decimal(estimate.context_window as nat), " input_tokens="@);
    crate::text::parts_are_found_in_more(t1 + " input_tokens="@, " context_window_tokens="@ + decimal(estimate.context_window as nat), decimal(estimate.input_tokens as nat));
    let t3 = t2 + " reserved_output_tokens="@ + decimal(estimate.reserved_output_tokens as nat);
    crate::text::parts_are_found_at_the_end(t2, " reserved_output_tokens="@, decimal(estimate.reserved_output_tokens as nat));
    crate::text::parts_are_found_in_more(t2, "Input plus reserved output exceeds upstream context window; lower the caller auto-compaction threshold, input tokens, or requested max_tokens. estimated_total_tokens="@ + decimal(estimate.total_tokens as nat), " reserved_output_tokens="@);
    crate::text::parts_are_found_in_more(t2 + " reserved_output_tokens="@, "Input plus reserved output exceeds upstream context window; lower the caller auto-compaction threshold, input tokens, or requested max_tokens. estimated_total_tokens="@ + decimal(estimate.total_tokens as nat), decimal(estimate.reserved_output_tokens as nat));
    crate::text::parts_are_found_in_more(t2, " context_window_tokens="@ + decimal(estimate.context_window as nat), " reserved_output_tokens="@);
    crate::text::parts_are_found_in_more(t2 + " reserved_output_tokens="@, " context_window_tokens="@ + decimal(estimate.context_window as nat), decimal(estimate.reserved_output_tokens as nat));
    crate::text::parts_are_found_in_more(t2, " input_tokens="@ + decimal(estimate.input_tokens as nat), " reserved_output_tokens="@);
    crate::text::parts_are_found_in_more(t2 + " reserved_output_tokens="@, " input_tokens="@ + decimal(estimate.input_tokens as nat), decimal(estimate.reserved_output_tokens as nat));
    let t4 = t3 + " safety_margin_tokens="@ + decimal(estimate.safety_margin as nat);
    crate::text::parts_are_found_at_the_end(t3, " safety_margin_tokens="@, decimal(estimate.safety_margin as nat));
    crate::text::parts_are_found_in_more(t3, "Input plus reserved output exceeds upstream context window; lower the caller auto-compaction threshold, input tokens, or requested max_tokens. estimated_total_tokens="@ + decimal(estimate.total_tokens as nat), " safety_margin_tokens="@);
    crate::text::parts_are_found_in_more(t3 + " safety_margin_tokens="@, "Input plus reserved output exceeds upstream context window; lower the caller auto-compaction threshold, input tokens, or requested max_tokens. estimated_total_tokens="@ + decimal(estimate.total_tokens as nat), decimal(estimate.safety_margin as nat));
    crate::text::parts_are_found_in_more(t3, " context_window_tokens="@ + decimal(estimate.context_window as nat), " safety_margin_tokens="@);
    crate::text::parts_are_found_in_more(t3 + " safety_margin_tokens="@, " context_window_tokens="@ + decimal(estimate.context_window as nat), decimal(estimate.safety_margin as nat));
    crate::text::parts_are_found_in_more(t3, " input_tokens="@ + decimal(estimate.input_tokens as nat), " safety_margin_tokens="@);
    crate::text::parts_are_found_in_more(t3 + " safety_margin_tokens="@, " input_tokens="@ + decimal(estimate.input_tokens as nat), decimal(estimate.safety_margin as nat));
    crate::text::parts_are_found_in_more(t3, " reserved_output_tokens="@ + decimal(estimate.reserved_output_tokens as nat), " safety_margin_tokens="@);
    crate::text::parts_are_found_in_more(t3 + " safety_margin_tokens="@, " reserved_output_tokens="@ + decimal(estimate.reserved_output_tokens as nat), decimal(estimate.safety_margin as nat));
}

/// The members of a value weigh what each of them weighs, and a member that is not there
/// nothing.
pub proof fn members_weigh_together(value: JsonModel, keys: Seq<Seq<char>>, key: Seq<char>)
    ensures
        value.field(key) matches Some(member) ==> members_tokens(value, keys.push(key))
            == members_tokens(value, keys) + json_tokens(member),
        value.field(key) is None ==> members_tokens(value, keys.push(key)) == members_tokens(
            value,
            keys,
        ),
        members_tokens(value, Seq::empty()) == 0,
        not_estimated(key).contains_key("context_budget_preflight"@) && not_estimated(
            key,
        )["context_budget_preflight"@] == key,
{
    assert(keys.push(key).drop_last() =~= keys);
}

/// A text weighs a quarter of its bytes, rounded up, or its words where they are more.
pub proof fn bytes_and_words_are_weighed(bytes: nat, words: nat)
    ensures
        estimated(bytes, words) >= words,
        4 * estimated(bytes, words) >= bytes,
        estimated(bytes, words) == words || 4 * estimated(bytes, words) <= bytes + 3,
{
}

} // verus!
