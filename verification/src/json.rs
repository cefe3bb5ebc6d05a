//! JSON values as the agent loop holds them, and the calls into `serde_json`
//! that read and print them.

use vstd::prelude::*;

use crate::text;

verus! {

/// A JSON number, in the three forms that `serde_json` tells apart.
#[derive(Debug, PartialEq)]
pub enum JsonNumber {
    /// An integer from zero up.
    PosInt(u64),
    /// An integer below zero.
    NegInt(i64),
    /// A finite double, by the decimal text that `serde_json` prints for it.
    Float(String),
}

#[verifier::ext_equal]
pub enum JsonNumberView {
    PosInt(u64),
    NegInt(i64),
    Float(Seq<char>),
}

impl DeepView for JsonNumber {
    type V = JsonNumberView;

    open spec fn deep_view(&self) -> JsonNumberView {
        match self {
            JsonNumber::PosInt(n) => JsonNumberView::PosInt(*n),
            JsonNumber::NegInt(n) => JsonNumberView::NegInt(*n),
            JsonNumber::Float(text) => JsonNumberView::Float(text@),
        }
    }
}

impl Clone for JsonNumber {
    fn clone(&self) -> (copy: Self)
        ensures
            copy.deep_view() == self.deep_view(),
    {
        match self {
            JsonNumber::PosInt(n) => JsonNumber::PosInt(*n),
            JsonNumber::NegInt(n) => JsonNumber::NegInt(*n),
            JsonNumber::Float(text) => JsonNumber::Float(text.clone()),
        }
    }
}

/// A JSON value. An object holds its entries in the order of their keys, as [`keyed`] has it.
#[derive(Debug, PartialEq)]
pub enum Json {
    Null,
    Bool(bool),
    Number(JsonNumber),
    Text(String),
    Array(Vec<Json>),
    Object(Vec<(String, Json)>),
}

#[verifier::ext_equal]
pub enum JsonView {
    Null,
    Bool(bool),
    Number(JsonNumberView),
    Text(Seq<char>),
    Array(Seq<JsonView>),
    Object(Seq<(Seq<char>, JsonView)>),
}

/// The value that a [`Json`] stands for.
pub open spec fn json_view(json: Json) -> JsonView
    decreases json,
{
    match json {
        Json::Null => JsonView::Null,
        Json::Bool(value) => JsonView::Bool(value),
        Json::Number(number) => JsonView::Number(number.deep_view()),
        Json::Text(text) => JsonView::Text(text@),
        Json::Array(items) => JsonView::Array(
            Seq::new(
                items@.len(),
                |i: int|
                    if 0 <= i < items@.len() {
                        json_view(items@[i])
                    } else {
                        JsonView::Null
                    },
            ),
        ),
        Json::Object(entries) => JsonView::Object(
            Seq::new(
                entries@.len(),
                |i: int|
                    if 0 <= i < entries@.len() {
                        (entries@[i].0@, json_view(entries@[i].1))
                    } else {
                        (Seq::empty(), JsonView::Null)
                    },
            ),
        ),
    }
}

impl DeepView for Json {
    type V = JsonView;

    open spec fn deep_view(&self) -> JsonView {
        json_view(*self)
    }
}

impl Clone for Json {
    fn clone(&self) -> (copy: Self)
        ensures
            copy.deep_view() == self.deep_view(),
        decreases self,
    {
        match self {
            Json::Null => Json::Null,
            Json::Bool(value) => Json::Bool(*value),
            Json::Number(number) => Json::Number(number.clone()),
            Json::Text(text) => Json::Text(text.clone()),
            Json::Array(items) => {
                let mut copies: Vec<Json> = Vec::new();
                for i in 0..items.len()
                    invariant
                        *self == Json::Array(*items),
                        copies@.len() == i,
                        forall|k: int|
                            0 <= k < i ==> copies@[k].deep_view() == (
                            #[trigger] items@[k]).deep_view(),
                {
                    assert(decreases_to!(*self => self->Array_0));
                    assert(decreases_to!(items@ => items@[i as int]));
                    copies.push(items[i].clone());
                }
                let copy = Json::Array(copies);
                assert(copy.deep_view()->Array_0 =~= self.deep_view()->Array_0);
                copy
            },
            Json::Object(entries) => {
                let mut copies: Vec<(String, Json)> = Vec::new();
                for i in 0..entries.len()
                    invariant
                        *self == Json::Object(*entries),
                        copies@.len() == i,
                        forall|k: int|
                            0 <= k < i ==> copies@[k].deep_view() == (
                            #[trigger] entries@[k]).deep_view(),
                {
                    assert(decreases_to!(*self => self->Object_0));
                    assert(decreases_to!(entries@ => entries@[i as int]));
                    copies.push((entries[i].0.clone(), entries[i].1.clone()));
                }
                let copy = Json::Object(copies);
                assert(copy.deep_view()->Object_0 =~= self.deep_view()->Object_0);
                copy
            },
        }
    }
}

impl Default for Json {
    fn default() -> (json: Self)
        ensures
            json.deep_view() == JsonView::Null,
    {
        Json::Null
    }
}

/// The object with the given entries.
pub fn json_object(entries: Vec<(String, Json)>) -> (json: Json)
    ensures
        json.deep_view() == JsonView::Object(entries.deep_view()),
{
    let json = Json::Object(entries);
    assert(json.deep_view()->Object_0 =~= entries.deep_view());
    json
}

/// The array of the given items.
pub fn json_array(items: Vec<Json>) -> (json: Json)
    ensures
        json.deep_view() == JsonView::Array(items.deep_view()),
{
    let json = Json::Array(items);
    assert(json.deep_view()->Array_0 =~= items.deep_view());
    json
}

/// A text as a JSON value.
pub fn json_text(text: &str) -> (json: Json)
    ensures
        json.deep_view() == JsonView::Text(text@),
{
    Json::Text(text.to_string())
}

impl Json {
    /// The value under `key`, where this is an object that has one.
    pub fn get(&self, key: &str) -> (found: Option<&Json>)
        ensures
            match found {
                Some(value) => self.deep_view() is Object && exists|i: int|
                    0 <= i < self.deep_view()->Object_0.len() && self.deep_view()->Object_0[i] == (
                        key@,
                        value.deep_view(),
                    ) && forall|k: int|
                        0 <= k < i ==> (#[trigger] self.deep_view()->Object_0[k]).0 != key@,
                None => self.deep_view() is Object ==> forall|k: int|
                    0 <= k < self.deep_view()->Object_0.len() ==> (
                    #[trigger] self.deep_view()->Object_0[k]).0 != key@,
            },
    {
        if let Json::Object(entries) = self {
            for i in 0..entries.len()
                invariant
                    *self == Json::Object(*entries),
                    forall|k: int|
                        0 <= k < i ==> (#[trigger] self.deep_view()->Object_0[k]).0 != key@,
            {
                if crate::text::same_text(entries[i].0.as_str(), key) {
                    assert(self.deep_view()->Object_0[i as int] == (
                        key@,
                        entries@[i as int].1.deep_view(),
                    ));
                    return Some(&entries[i].1);
                }
                assert(self.deep_view()->Object_0[i as int].0 == entries@[i as int].0@);
            }
        }
        None
    }
}

/// `serde_json::Value`, which a [`Json`] is changed into for the calls below.
#[verifier::external_type_specification]
#[verifier::external_body]
pub struct ExValue(serde_json::Value);

/// `serde_json::Number`, which a [`JsonNumber`] is changed into for the calls below.
#[verifier::external_type_specification]
#[verifier::external_body]
pub struct ExNumber(serde_json::Number);

/// Whether entries come in the order of their keys, and no key occurs twice.
pub open spec fn keys_ascend<T>(entries: Seq<(Seq<char>, T)>) -> bool {
    forall|i: int, j: int|
        0 <= i < j < entries.len() ==> text::below(
            (#[trigger] entries[i]).0,
            (#[trigger] entries[j]).0,
        )
}

/// Whether every object in a value, at any depth, has its entries in the order of their keys, and
/// no key twice.
pub open spec fn keyed(json: JsonView) -> bool
    decreases json,
{
    match json {
        JsonView::Array(items) => forall|i: int|
            0 <= i < items.len() ==> keyed(#[trigger] items[i]),
        JsonView::Object(entries) => keys_ascend(entries) && forall|i: int|
            0 <= i < entries.len() ==> keyed((#[trigger] entries[i]).1),
        _ => true,
    }
}

/// The integer that a number is, where it was written as one.
pub open spec fn number_int(number: JsonNumberView) -> Option<int> {
    match number {
        JsonNumberView::PosInt(n) => Some(n as int),
        JsonNumberView::NegInt(n) => Some(n as int),
        JsonNumberView::Float(_) => None,
    }
}

/// The unsigned 32-bit integer that a value is, where it is one.
pub open spec fn count_of(json: JsonView) -> Option<u32> {
    match json {
        JsonView::Number(number) => match number_int(number) {
            Some(n) => if 0 <= n <= u32::MAX {
                Some(n as u32)
            } else {
                None
            },
            None => None,
        },
        _ => None,
    }
}

/// What `serde_json::from_str` makes of a text: the value that it spells, or
/// the message of the error.
pub uninterp spec fn parsed_json(text: Seq<char>) -> Result<JsonView, Seq<char>>;

/// The text that `serde_json::Value` prints for a value.
pub uninterp spec fn printed_json(json: JsonView) -> Seq<char>;

/// The text that `serde_json` prints for the double nearest to a number.
pub uninterp spec fn nearest_double(number: JsonNumberView) -> Seq<char>;

/// The message that `serde::de::Error::invalid_type` builds for a value that
/// stands where `expected` was called for.
pub uninterp spec fn type_refusal(json: JsonView, expected: Seq<char>) -> Seq<char>;

/// The message with which `serde_json::from_value` refuses a value as a `u32`.
pub uninterp spec fn count_refusal(json: JsonView) -> Seq<char>;

/// Changes a number into `serde_json`'s own type, form by form. A double is
/// read back from its decimal text.
#[verifier::external_body]
fn to_serde_number(number: &JsonNumber) -> serde_json::Number {
    match number {
        JsonNumber::PosInt(n) => serde_json::Number::from(*n),
        JsonNumber::NegInt(n) => serde_json::Number::from(*n),
        JsonNumber::Float(text) => serde_json::Number::from_f64(text.parse().unwrap_or_default())
            .or(serde_json::Number::from_f64(Default::default()))
            .unwrap_or(serde_json::Number::from(0u64)),
    }
}

/// Changes a value into `serde_json`'s own type, node by node.
#[verifier::external_body]
fn to_serde_value(json: &Json) -> serde_json::Value {
    match json {
        Json::Null => serde_json::Value::Null,
        Json::Bool(value) => serde_json::Value::Bool(*value),
        Json::Number(number) => serde_json::Value::Number(to_serde_number(number)),
        Json::Text(text) => serde_json::Value::String(text.clone()),
        Json::Array(items) => serde_json::Value::Array(items.iter().map(to_serde_value).collect()),
        Json::Object(entries) => serde_json::Value::Object(
            entries.iter().map(|entry| (entry.0.clone(), to_serde_value(&entry.1))).collect(),
        ),
    }
}

/// Changes a number of `serde_json`'s own type into a [`JsonNumber`], form by form.
#[verifier::external_body]
fn from_serde_number(number: serde_json::Number) -> JsonNumber {
    match (number.as_u64(), number.as_i64()) {
        (Some(n), _) => JsonNumber::PosInt(n),
        (None, Some(n)) => JsonNumber::NegInt(n),
        (None, None) => JsonNumber::Float(number.to_string()),
    }
}

/// Changes a value of `serde_json`'s own type into a [`Json`], node by node.
#[verifier::external_body]
fn from_serde_value(value: serde_json::Value) -> Json {
    match value {
        serde_json::Value::Null => Json::Null,
        serde_json::Value::Bool(value) => Json::Bool(value),
        serde_json::Value::Number(number) => Json::Number(from_serde_number(number)),
        serde_json::Value::String(text) => Json::Text(text),
        serde_json::Value::Array(items) => Json::Array(
            items.into_iter().map(from_serde_value).collect(),
        ),
        serde_json::Value::Object(map) => Json::Object(
            map.into_iter().map(|entry| (entry.0, from_serde_value(entry.1))).collect(),
        ),
    }
}

/// Reads a text with `serde_json::from_str`. The outcome is a function of the
/// text alone: the value that it spells, or the error's message. An object is
/// gathered in a map that is sorted by its keys, so its entries come in their
/// order, and no key comes twice.
#[verifier::external_body]
pub(crate) fn parse_json(text: &str) -> (parsed: Result<Json, String>)
    ensures
        match parsed {
            Ok(json) => parsed_json(text@) == Ok::<JsonView, Seq<char>>(json.deep_view()) && keyed(
                json.deep_view(),
            ),
            Err(message) => parsed_json(text@) == Err::<JsonView, Seq<char>>(message@),
        },
{
    serde_json::from_str(text).map(from_serde_value).map_err(
        |err: serde_json::Error| err.to_string(),
    )
}

/// Prints a value with the `Display` of `serde_json::Value`, which gives the
/// same text for the same value.
#[verifier::external_body]
pub(crate) fn print_json(json: &Json) -> (text: String)
    ensures
        text@ == printed_json(json.deep_view()),
{
    to_serde_value(json).to_string()
}

/// Rounds a number with `serde_json::Number::as_f64` and prints the double
/// that came out, which is the same for the same number. The text is one that
/// reads back as the very double that was printed, so rounding the number that
/// it spells gives the text again.
#[verifier::external_body]
pub(crate) fn round_to_double(number: &JsonNumber) -> (text: String)
    ensures
        text@ == nearest_double(number.deep_view()),
        nearest_double(JsonNumberView::Float(text@)) == text@,
{
    let double = to_serde_number(number).as_f64().and_then(serde_json::Number::from_f64);
    double.map(|double| double.to_string()).unwrap_or_default()
}

/// Reads a value with `serde_json::from_value` as a `String`: a text gives its
/// characters, and every other value is refused as being of the wrong type.
#[verifier::external_body]
pub(crate) fn read_text(json: &Json) -> (read: Result<String, String>)
    ensures
        match read {
            Ok(text) => json.deep_view() == JsonView::Text(text@),
            Err(message) => !(json.deep_view() is Text) && message@ == type_refusal(
                json.deep_view(),
                "a string"@,
            ),
        },
{
    serde_json::from_value(to_serde_value(json)).map_err(|err: serde_json::Error| err.to_string())
}

/// Reads a value with `serde_json::from_value` as a `bool`: a truth value
/// gives itself, and every other value is refused as being of the wrong type.
#[verifier::external_body]
pub(crate) fn read_flag(json: &Json) -> (read: Result<bool, String>)
    ensures
        match read {
            Ok(flag) => json.deep_view() == JsonView::Bool(flag),
            Err(message) => !(json.deep_view() is Bool) && message@ == type_refusal(
                json.deep_view(),
                "a boolean"@,
            ),
        },
{
    serde_json::from_value(to_serde_value(json)).map_err(|err: serde_json::Error| err.to_string())
}

/// Reads a value with `serde_json::from_value` as a `u32`: an integer in the
/// range of `u32` gives itself, and every other value is refused, with a
/// message that is the same for the same value.
#[verifier::external_body]
pub(crate) fn read_count(json: &Json) -> (read: Result<u32, String>)
    ensures
        match read {
            Ok(count) => count_of(json.deep_view()) == Some(count),
            Err(message) => count_of(json.deep_view()) is None && message@ == count_refusal(
                json.deep_view(),
            ),
        },
{
    serde_json::from_value(to_serde_value(json)).map_err(|err: serde_json::Error| err.to_string())
}

/// The message that `serde::de::Error::invalid_type` builds, for the error of
/// `serde_json`, of a value that stands where `expected` was called for. It is
/// the same for the same value and the same expectation.
#[verifier::external_body]
pub(crate) fn refuse_type(json: &Json, expected: &str) -> (message: String)
    ensures
        message@ == type_refusal(json.deep_view(), expected@),
{
    let found = match json {
        Json::Null => serde::de::Unexpected::Unit,
        Json::Bool(value) => serde::de::Unexpected::Bool(*value),
        Json::Number(JsonNumber::PosInt(n)) => serde::de::Unexpected::Unsigned(*n),
        Json::Number(JsonNumber::NegInt(n)) => serde::de::Unexpected::Signed(*n),
        Json::Number(float) => serde::de::Unexpected::Float(
            to_serde_number(float).as_f64().unwrap_or_default(),
        ),
        Json::Text(text) => serde::de::Unexpected::Str(text),
        Json::Array(_) => serde::de::Unexpected::Seq,
        Json::Object(_) => serde::de::Unexpected::Map,
    };
    <serde_json::Error as serde::de::Error>::invalid_type(found, &expected).to_string()
}

} // verus!
