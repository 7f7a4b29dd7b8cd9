//! JSON values as plain data, read from and written to text by `serde_json`.

use crate::text::{chars_list, same_text};
use vstd::prelude::*;

verus! {

/// A parsed value as `serde_json` holds it.
#[verifier::external_type_specification]
#[verifier::external_body]
pub struct ExJsonValue(serde_json::Value);

/// A number as `serde_json` holds it.
#[verifier::external_type_specification]
#[verifier::external_body]
pub struct ExJsonNumber(serde_json::Number);

/// `serde_json::Number::clone` gives back the same number.
pub assume_specification[ <serde_json::Number as Clone>::clone ](
    number: &serde_json::Number,
) -> (copy: serde_json::Number)
    ensures
        copy == *number,
;

/// What `serde_json::Number::is_f64` says of a number: that it is held as a
/// double-precision float, not as a whole number.
pub uninterp spec fn is_fraction(number: serde_json::Number) -> bool;

/// `serde_json::Number::is_f64` is a function of the number.
pub assume_specification[ serde_json::Number::is_f64 ](number: &serde_json::Number) -> (is: bool)
    ensures
        is == is_fraction(*number),
;

/// A number that is not held as a whole number.
pub struct Fraction {
    number: serde_json::Number,
}

impl Fraction {
    #[verifier::type_invariant]
    spec fn is_no_whole_number(self) -> bool {
        is_fraction(self.number)
    }

    /// A number, where it is not held as a whole number.
    pub fn of(number: serde_json::Number) -> (fraction: Option<Fraction>)
        ensures
            match fraction {
                Some(fraction) => is_fraction(number) && fraction@ == number,
                None => !is_fraction(number),
            },
    {
        if number.is_f64() {
            Some(Fraction { number })
        } else {
            None
        }
    }

    /// The number itself.
    pub fn number(&self) -> (number: serde_json::Number)
        ensures
            number == self@,
            is_fraction(number),
    {
        proof {
            use_type_invariant(self);
        }
        self.number.clone()
    }
}

impl View for Fraction {
    type V = serde_json::Number;

    closed spec fn view(&self) -> serde_json::Number {
        self.number
    }
}

impl Clone for Fraction {
    fn clone(&self) -> (copy: Fraction)
        ensures
            copy@ == self@,
    {
        proof {
            use_type_invariant(self);
        }
        Fraction { number: self.number.clone() }
    }
}

/// The meaning of a JSON value. Whole numbers are told apart from the others,
/// which stay as `serde_json` holds them.
#[verifier::ext_equal]
pub enum JsonModel {
    Null,
    Bool(bool),
    Unsigned(u64),
    Negative(i64),
    Float(serde_json::Number),
    Text(Seq<char>),
    Array(Seq<JsonModel>),
    Object(Map<Seq<char>, JsonModel>),
}

/// A JSON value. Where an object lists a key more than once its last entry
/// counts.
pub enum Json {
    Null,
    Bool(bool),
    Unsigned(u64),
    Negative(i64),
    Float(Fraction),
    Text(String),
    Array(Vec<Json>),
    Object(Vec<(String, Json)>),
}

impl Json {
    /// The meaning of a value.
    pub open spec fn model(self) -> JsonModel
        decreases self, 0nat,
    {
        match self {
            Json::Null => JsonModel::Null,
            Json::Bool(value) => JsonModel::Bool(value),
            Json::Unsigned(value) => JsonModel::Unsigned(value),
            Json::Negative(value) => if value < 0 {
                JsonModel::Negative(value)
            } else {
                JsonModel::Unsigned(value as u64)
            },
            Json::Float(value) => JsonModel::Float(value@),
            Json::Text(text) => JsonModel::Text(text@),
            Json::Array(items) => JsonModel::Array(
                Seq::new(
                    items.len() as nat,
                    |i: int|
                        if 0 <= i < items.len() {
                            items[i].model()
                        } else {
                            JsonModel::Null
                        },
                ),
            ),
            Json::Object(fields) => JsonModel::Object(Json::fields_model(fields, fields.len() as nat)),
        }
    }

    /// What the first `count` entries of an object bind.
    pub open spec fn fields_model(fields: Vec<(String, Json)>, count: nat) -> Map<
        Seq<char>,
        JsonModel,
    >
        decreases fields, count,
    {
        if count == 0 || count > fields.len() {
            Map::empty()
        } else {
            let entry = fields[count - 1];
            Json::fields_model(fields, (count - 1) as nat).insert(entry.0@, entry.1.model())
        }
    }
}

impl View for Json {
    type V = JsonModel;

    open spec fn view(&self) -> JsonModel {
        self.model()
    }
}

// ---------------------------------------------------------------------------
// Reading and writing text
// ---------------------------------------------------------------------------

/// The JSON value that a `serde_json::Value` holds.
pub uninterp spec fn value_model(value: serde_json::Value) -> JsonModel;

/// What `serde_json::from_slice` makes of some bytes: the value that they
/// spell, or the text of the error.
pub uninterp spec fn parsed_json(bytes: Seq<u8>) -> Result<JsonModel, Seq<char>>;

/// The compact text that `serde_json` writes for a value.
pub uninterp spec fn rendered_json(value: JsonModel) -> Seq<char>;

/// `serde_json::from_slice` into a `serde_json::Value`. Its result is a function
/// of the bytes; an error is given as its text.
#[verifier::external_body]
fn value_from_slice(bytes: &[u8]) -> (parsed: Result<serde_json::Value, String>)
    ensures
        match parsed {
            Ok(value) => parsed_json(bytes@) == Ok::<JsonModel, Seq<char>>(value_model(value)),
            Err(error) => parsed_json(bytes@) == Err::<JsonModel, Seq<char>>(error@),
        },
{
    serde_json::from_slice::<serde_json::Value>(bytes).map_err(|error| error.to_string())
}

/// Takes a `serde_json::Value` apart, variant by variant: a number is an
/// unsigned whole number (`as_u64`), else a negative one (`as_i64`), else it is
/// kept as it is.
#[verifier::external_body]
fn json_of_value(value: serde_json::Value) -> (json: Json)
    ensures
        json@ == value_model(value),
{
    match value {
        serde_json::Value::Null => Json::Null,
        serde_json::Value::Bool(value) => Json::Bool(value),
        serde_json::Value::Number(number) => match (number.as_u64(), number.as_i64()) {
            (Some(value), _) => Json::Unsigned(value),
            (None, Some(value)) => Json::Negative(value),
            (None, None) => Json::Float(Fraction { number }),
        },
        serde_json::Value::String(text) => Json::Text(text),
        serde_json::Value::Array(items) => Json::Array(items.into_iter().map(json_of_value).collect()),
        serde_json::Value::Object(fields) => Json::Object(
            fields.into_iter().map(|(key, value)| (key, json_of_value(value))).collect()),
    }
}

/// Builds the `serde_json::Value` of a value, variant by variant.
#[verifier::external_body]
fn value_of_json(json: &Json) -> (value: serde_json::Value)
    ensures
        value_model(value) == json@,
{
    match json {
        Json::Null => serde_json::Value::Null,
        Json::Bool(value) => serde_json::Value::Bool(*value),
        Json::Unsigned(value) => serde_json::Value::from(*value),
        Json::Negative(value) => serde_json::Value::from(*value),
        Json::Float(fraction) => serde_json::Value::Number(fraction.number.clone()),
        Json::Text(text) => serde_json::Value::String(text.clone()),
        Json::Array(items) => serde_json::Value::Array(items.iter().map(value_of_json).collect()),
        Json::Object(fields) => serde_json::Value::Object(
            fields.iter().map(|(key, value)| (key.clone(), value_of_json(value))).collect()),
    }
}

/// `serde_json::Value::to_string` writes the value as compact JSON text, which
/// is a function of the value.
#[verifier::external_body]
fn value_to_text(value: &serde_json::Value) -> (text: String)
    ensures
        text@ == rendered_json(value_model(*value)),
{
    value.to_string()
}

/// Reads a JSON text.
pub fn parse_json(bytes: &[u8]) -> (parsed: Result<Json, String>)
    ensures
        match parsed {
            Ok(json) => parsed_json(bytes@) == Ok::<JsonModel, Seq<char>>(json@),
            Err(error) => parsed_json(bytes@) == Err::<JsonModel, Seq<char>>(error@),
        },
{
    match value_from_slice(bytes) {
        Ok(value) => Ok(json_of_value(value)),
        Err(error) => Err(error),
    }
}

/// Writes a value as compact JSON text.
pub fn render_json(json: &Json) -> (text: String)
    ensures
        text@ == rendered_json(json@),
{
    let value = value_of_json(json);
    value_to_text(&value)
}

// ---------------------------------------------------------------------------
// Looking into values
// ---------------------------------------------------------------------------

impl JsonModel {
    /// The member of an object under the given key.
    pub open spec fn field(self, key: Seq<char>) -> Option<JsonModel> {
        match self {
            JsonModel::Object(fields) if fields.contains_key(key) => Some(fields[key]),
            _ => None,
        }
    }

    /// The characters of a string.
    pub open spec fn as_text(self) -> Option<Seq<char>> {
        match self {
            JsonModel::Text(text) => Some(text),
            _ => None,
        }
    }

    /// The items of an array.
    pub open spec fn as_items(self) -> Option<Seq<JsonModel>> {
        match self {
            JsonModel::Array(items) => Some(items),
            _ => None,
        }
    }

    /// The value of an unsigned whole number.
    pub open spec fn as_unsigned(self) -> Option<u64> {
        match self {
            JsonModel::Unsigned(value) => Some(value),
            _ => None,
        }
    }
}

/// The text member of an object under the given key.
pub open spec fn text_field(value: JsonModel, key: Seq<char>) -> Option<Seq<char>> {
    match value.field(key) {
        Some(member) => member.as_text(),
        None => None,
    }
}

/// The unsigned member of an object under the given key.
pub open spec fn unsigned_field(value: JsonModel, key: Seq<char>) -> Option<u64> {
    match value.field(key) {
        Some(member) => member.as_unsigned(),
        None => None,
    }
}

/// The array member of an object under the given key.
pub open spec fn items_field(value: JsonModel, key: Seq<char>) -> Option<Seq<JsonModel>> {
    match value.field(key) {
        Some(member) => member.as_items(),
        None => None,
    }
}

/// The member of a member: `outer.inner`.
pub open spec fn nested_field(value: JsonModel, outer: Seq<char>, inner: Seq<char>) -> Option<
    JsonModel,
> {
    match value.field(outer) {
        Some(member) => member.field(inner),
        None => None,
    }
}

/// The model of an optional reference.
pub open spec fn opt_model(value: Option<&Json>) -> Option<JsonModel> {
    match value {
        Some(value) => Some(value@),
        None => None,
    }
}

impl Json {
    /// The member of an object under `key`.
    pub fn get(&self, key: &str) -> (member: Option<&Json>)
        ensures
            opt_model(member) == self@.field(key@),
    {
        match self {
            Json::Object(fields) => {
                let mut i: usize = fields.len();
                while i > 0
                    invariant
                        i <= fields.len(),
                        *self == Json::Object(*fields),
                        ({
                            let all = Json::fields_model(*fields, fields.len() as nat);
                            let rest = Json::fields_model(*fields, i as nat);
                            &&& all.contains_key(key@) == rest.contains_key(key@)
                            &&& all.contains_key(key@) ==> all[key@] == rest[key@]
                        }),
                    decreases i,
                {
                    i -= 1;
                    if same_text(fields[i].0.as_str(), key) {
                        return Some(&fields[i].1);
                    }
                }
                None
            },
            _ => None,
        }
    }

    /// The characters of a string value.
    pub fn as_str(&self) -> (text: Option<&String>)
        ensures
            match text {
                Some(text) => self@.as_text() == Some(text@),
                None => self@.as_text() is None,
            },
    {
        match self {
            Json::Text(text) => Some(text),
            _ => None,
        }
    }

    /// The items of an array value.
    pub fn as_array(&self) -> (items: Option<&Vec<Json>>)
        ensures
            match items {
                Some(items) => self@.as_items() == Some(models(items@)),
                None => self@.as_items() is None,
            },
    {
        match self {
            Json::Array(items) => {
                assert(self@->Array_0 =~= models(items@));
                Some(items)
            },
            _ => None,
        }
    }

    /// The value of an unsigned whole number.
    pub fn as_u64(&self) -> (value: Option<u64>)
        ensures
            value == self@.as_unsigned(),
    {
        match self {
            Json::Unsigned(value) => Some(*value),
            Json::Negative(value) => {
                if *value >= 0 {
                    Some(*value as u64)
                } else {
                    None
                }
            },
            _ => None,
        }
    }

    /// Whether the value is an object.
    pub fn is_object(&self) -> (is: bool)
        ensures
            is == (self@ is Object),
    {
        match self {
            Json::Object(_) => true,
            _ => false,
        }
    }

    /// Whether the value is `null`.
    pub fn is_null(&self) -> (is: bool)
        ensures
            is == (self@ is Null),
    {
        match self {
            Json::Null => true,
            _ => false,
        }
    }

    /// The text member of an object under `key`.
    pub fn get_str(&self, key: &str) -> (text: Option<&String>)
        ensures
            match text {
                Some(text) => text_field(self@, key@) == Some(text@),
                None => text_field(self@, key@) is None,
            },
    {
        match self.get(key) {
            Some(member) => member.as_str(),
            None => None,
        }
    }

    /// The unsigned member of an object under `key`.
    pub fn get_u64(&self, key: &str) -> (value: Option<u64>)
        ensures
            value == unsigned_field(self@, key@),
    {
        match self.get(key) {
            Some(member) => member.as_u64(),
            None => None,
        }
    }

    /// The array member of an object under `key`.
    pub fn get_array(&self, key: &str) -> (items: Option<&Vec<Json>>)
        ensures
            match items {
                Some(items) => items_field(self@, key@) == Some(models(items@)),
                None => items_field(self@, key@) is None,
            },
    {
        match self.get(key) {
            Some(member) => member.as_array(),
            None => None,
        }
    }

    /// The keys of an object, in the order in which it lists them.
    pub fn keys(&self) -> (keys: Vec<String>)
        ensures
            lists_keys(chars_list(keys@), self@),
    {
        let mut keys: Vec<String> = Vec::new();
        match self {
            Json::Object(fields) => {
                let mut i: usize = 0;
                while i < fields.len()
                    invariant
                        i <= fields.len(),
                        *self == Json::Object(*fields),
                        forall|key: Seq<char>| #[trigger]
                            chars_list(keys@).contains(key) == Json::fields_model(
                                *fields,
                                i as nat,
                            ).contains_key(key),
                    decreases fields.len() - i,
                {
                    let ghost before = chars_list(keys@);
                    let ghost next = fields[i as int].0@;
                    keys.push(fields[i].0.clone());
                    i += 1;
                    assert(chars_list(keys@) =~= before.push(next));
                    assert forall|key: Seq<char>| #[trigger]
                        chars_list(keys@).contains(key) == Json::fields_model(
                            *fields,
                            i as nat,
                        ).contains_key(key) by {
                        let after = before.push(next);
                        if before.contains(key) {
                            let at = choose|at: int| 0 <= at < before.len() && before[at] == key;
                            assert(after[at] == key);
                        }
                        assert(after[before.len() as int] == next);
                        if after.contains(key) && key != next {
                            let at = choose|at: int| 0 <= at < after.len() && after[at] == key;
                            assert(before[at] == key);
                        }
                    }
                }
            },
            _ => {},
        }
        keys
    }

    /// A string value.
    pub fn text(text: &str) -> (value: Json)
        ensures
            value@ == JsonModel::Text(text@),
    {
        Json::Text(text.to_owned())
    }
}

/// Whether a list holds the keys of an object and nothing else.
pub open spec fn lists_keys(keys: Seq<Seq<char>>, value: JsonModel) -> bool {
    forall|key: Seq<char>| #[trigger] keys.contains(key) == (value.field(key) is Some)
}

/// The models of a list of values.
pub open spec fn models(items: Seq<Json>) -> Seq<JsonModel> {
    Seq::new(items.len(), |i: int| items[i]@)
}

/// A list of strings as JSON.
pub open spec fn text_array(list: Seq<Seq<char>>) -> JsonModel {
    JsonModel::Array(Seq::new(list.len(), |i: int| JsonModel::Text(list[i])))
}

/// The JSON array of a list of strings.
pub fn array_of_texts(list: &Vec<String>) -> (value: Json)
    ensures
        value@ == text_array(chars_list(list@)),
{
    let mut items: Vec<Json> = Vec::new();
    let mut i: usize = 0;
    while i < list.len()
        invariant
            i <= list.len(),
            items.len() == i,
            forall|j: int| 0 <= j < i ==> (#[trigger] items[j])@ == JsonModel::Text(list[j]@),
        decreases list.len() - i,
    {
        items.push(Json::Text(list[i].clone()));
        i += 1;
    }
    let value = Json::Array(items);
    assert(value@->Array_0 =~= text_array(chars_list(list@))->Array_0);
    value
}

/// The JSON array of a list of values.
pub fn array_of(items: Vec<Json>) -> (value: Json)
    ensures
        value@ == JsonModel::Array(models(items@)),
{
    let value = Json::Array(items);
    assert(value@->Array_0 =~= models(items@));
    value
}

/// A copy of a list of values.
pub fn clone_items(items: &Vec<Json>) -> (copy: Vec<Json>)
    ensures
        models(copy@) == models(items@),
{
    let mut copy: Vec<Json> = Vec::new();
    let mut i: usize = 0;
    while i < items.len()
        invariant
            i <= items.len(),
            copy.len() == i,
            forall|j: int| 0 <= j < i ==> (#[trigger] copy[j])@ == items[j]@,
        decreases items.len() - i,
    {
        copy.push(items[i].clone());
        i += 1;
    }
    assert(models(copy@) =~= models(items@));
    copy
}

proof fn lemma_same_fields(a: Vec<(String, Json)>, b: Vec<(String, Json)>, count: nat)
    requires
        count <= a.len(),
        count <= b.len(),
        forall|i: int| 0 <= i < count ==> #[trigger] a[i] == b[i],
    ensures
        Json::fields_model(a, count) == Json::fields_model(b, count),
    decreases count,
{
    if count > 0 {
        lemma_same_fields(a, b, (count - 1) as nat);
        assert(a[count - 1] == b[count - 1]);
    }
}

/// An object under construction.
pub struct JsonObject {
    fields: Vec<(String, Json)>,
}

impl View for JsonObject {
    type V = Map<Seq<char>, JsonModel>;

    closed spec fn view(&self) -> Map<Seq<char>, JsonModel> {
        Json::fields_model(self.fields, self.fields.len() as nat)
    }
}

impl JsonObject {
    /// An object without members.
    pub fn new() -> (object: JsonObject)
        ensures
            object@ == Map::<Seq<char>, JsonModel>::empty(),
    {
        JsonObject { fields: Vec::new() }
    }

    /// Sets the member under `key`, in place of what was there.
    pub fn insert(&mut self, key: &str, value: Json)
        ensures
            final(self)@ == old(self)@.insert(key@, value@),
    {
        let ghost before = self.fields;
        self.fields.push((key.to_owned(), value));
        proof {
            lemma_same_fields(before, self.fields, before.len() as nat);
            assert(self.fields[before.len() as int] == self.fields@.last());
        }
    }

    /// A copy of an object to build on.
    pub fn of(value: &Json) -> (object: Option<JsonObject>)
        ensures
            match object {
                Some(object) => value@ == JsonModel::Object(object@),
                None => !(value@ is Object),
            },
    {
        match value {
            Json::Object(fields) => {
                let mut object = JsonObject::new();
                let mut i: usize = 0;
                while i < fields.len()
                    invariant
                        i <= fields.len(),
                        object@ == Json::fields_model(*fields, i as nat),
                    decreases fields.len() - i,
                {
                    object.insert(fields[i].0.as_str(), fields[i].1.clone());
                    i += 1;
                }
                Some(object)
            },
            _ => None,
        }
    }

    /// Takes the member under `key` out.
    pub fn remove(&mut self, key: &str)
        ensures
            final(self)@ == old(self)@.remove(key@),
    {
        let mut kept = JsonObject::new();
        let ghost all = self.fields;
        let mut i: usize = 0;
        assert(kept@ =~= Json::fields_model(all, 0).remove(key@));
        while i < self.fields.len()
            invariant
                i <= self.fields.len(),
                self.fields == all,
                kept@ == Json::fields_model(all, i as nat).remove(key@),
            decreases self.fields.len() - i,
        {
            let ghost before = kept@;
            if !same_text(self.fields[i].0.as_str(), key) {
                kept.insert(self.fields[i].0.as_str(), self.fields[i].1.clone());
            }
            i += 1;
            assert(kept@ =~= Json::fields_model(all, i as nat).remove(key@));
        }
        *self = kept;
    }

    /// The finished object.
    pub fn into_json(self) -> (value: Json)
        ensures
            value@ == JsonModel::Object(self@),
    {
        Json::Object(self.fields)
    }
}

impl Clone for Json {
    fn clone(&self) -> (copy: Json)
        ensures
            copy@ == self@,
        decreases self,
    {
        match self {
            Json::Null => Json::Null,
            Json::Bool(value) => Json::Bool(*value),
            Json::Unsigned(value) => Json::Unsigned(*value),
            Json::Negative(value) => Json::Negative(*value),
            Json::Float(number) => Json::Float(number.clone()),
            Json::Text(text) => Json::Text(text.clone()),
            Json::Array(items) => {
                let mut copies: Vec<Json> = Vec::new();
                let mut i: usize = 0;
                while i < items.len()
                    invariant
                        i <= items.len(),
                        *self == Json::Array(*items),
                        copies.len() == i,
                        forall|j: int| 0 <= j < i ==> (#[trigger] copies[j])@ == items[j]@,
                    decreases items.len() - i,
                {
                    assert(decreases_to!(*self => self->Array_0));
                    assert(decreases_to!(*items => items[i as int]));
                    copies.push(items[i].clone());
                    i += 1;
                }
                let copy = Json::Array(copies);
                assert(copy@->Array_0 =~= self@->Array_0);
                copy
            },
            Json::Object(fields) => {
                let mut copy = JsonObject::new();
                let mut i: usize = 0;
                while i < fields.len()
                    invariant
                        i <= fields.len(),
                        *self == Json::Object(*fields),
                        copy@ == Json::fields_model(*fields, i as nat),
                    decreases fields.len() - i,
                {
                    assert(decreases_to!(*self => self->Object_0));
                    assert(decreases_to!(*fields => fields[i as int]));
                    copy.insert(fields[i].0.as_str(), fields[i].1.clone());
                    i += 1;
                }
                copy.into_json()
            },
        }
    }
}

/// A member of an object is what stands under its key; what is no object has none. A
/// text, a list and a number are read as such and nothing else is.
pub proof fn members_stand_under_their_key(
    fields: Map<Seq<char>, JsonModel>,
    more: Map<Seq<char>, JsonModel>,
    key: Seq<char>,
    inner: Seq<char>,
    value: JsonModel,
    text: Seq<char>,
    items: Seq<JsonModel>,
    number: u64,
)
    ensures
        ({
            let object = JsonModel::Object(fields);
            let holds = |member: JsonModel| fields.contains_key(key) && fields[key] == member;
            &&& holds(value) ==> object.field(key) == Some(value)
            &&& !fields.contains_key(key) ==> object.field(key) is None
            &&& holds(JsonModel::Text(text)) ==> text_field(object, key) == Some(text)
            &&& holds(JsonModel::Array(items)) ==> items_field(object, key) == Some(items)
            &&& holds(JsonModel::Unsigned(number)) ==> unsigned_field(object, key) == Some(number)
            &&& holds(JsonModel::Null) ==> text_field(object, key) is None && items_field(
                object,
                key,
            ) is None && unsigned_field(object, key) is None
            &&& holds(JsonModel::Text(text)) ==> items_field(object, key) is None && unsigned_field(
                object,
                key,
            ) is None
            &&& holds(JsonModel::Object(more)) && more.contains_key(inner) ==> nested_field(
                object,
                key,
                inner,
            ) == Some(more[inner])
        }),
        !(value is Object) ==> value.field(key) is None,
{
}

/// A value is read as what it is, and as nothing else.
pub proof fn values_are_read_as_they_are(
    text: Seq<char>,
    items: Seq<JsonModel>,
    number: u64,
    list: Seq<Seq<char>>,
    i: int,
)
    ensures
        JsonModel::Text(text).as_text() == Some(text),
        JsonModel::Text(text).as_items() is None && JsonModel::Text(text).as_unsigned() is None,
        JsonModel::Array(items).as_items() == Some(items),
        JsonModel::Array(items).as_text() is None && JsonModel::Array(items).as_unsigned() is None,
        JsonModel::Unsigned(number).as_unsigned() == Some(number),
        JsonModel::Unsigned(number).as_text() is None && JsonModel::Unsigned(number).as_items()
            is None,
        text_array(list) matches JsonModel::Array(texts) && texts.len() == list.len() && (0 <= i
            < list.len() ==> texts[i] == JsonModel::Text(list[i])),
{
}

/// The keys of a value are those of its members.
pub proof fn keys_are_those_of_the_members(
    keys: Seq<Seq<char>>,
    fields: Map<Seq<char>, JsonModel>,
    key: Seq<char>,
)
    ensures
        lists_keys(keys, JsonModel::Object(fields)) ==> (keys.contains(key) <==> fields.contains_key(
            key,
        )),
{
    if lists_keys(keys, JsonModel::Object(fields)) {
        assert(keys.contains(key) == (JsonModel::Object(fields).field(key) is Some));
    }
}

} // verus!
