//! JSON values as plain data.
//!
//! The library builds JSON values, takes them apart and hands them on as
//! text. Writing and reading the text is the work of `serde_json`; the two
//! functions that call it state their result by name, [`json_text`] and
//! [`json_parsed`].

use crate::assoc::{entry_views, option_view};
use vstd::prelude::*;

verus! {

#[verifier::external_type_specification]
#[verifier::external_body]
pub struct ExSerdeValue(serde_json::Value);

/// A JSON number.
#[derive(Debug, PartialEq, Eq)]
pub enum JsonNumber {
    /// An integer that fits 64 bits with a sign.
    Int(i64),
    /// Any other number, by its JSON text.
    Decimal(String),
}

/// The mathematical form of a [`JsonNumber`].
pub enum JsonNumberView {
    Int(i64),
    Decimal(Seq<char>),
}

impl View for JsonNumber {
    type V = JsonNumberView;

    open spec fn view(&self) -> JsonNumberView {
        match self {
            JsonNumber::Int(n) => JsonNumberView::Int(*n),
            JsonNumber::Decimal(text) => JsonNumberView::Decimal(text@),
        }
    }
}

impl Clone for JsonNumber {
    fn clone(&self) -> (copy: Self)
        ensures
            copy@ == self@,
    {
        match self {
            JsonNumber::Int(n) => JsonNumber::Int(*n),
            JsonNumber::Decimal(text) => JsonNumber::Decimal(text.clone()),
        }
    }
}

/// A JSON value. The members of an object are held in the order in which
/// they were given.
#[derive(Debug, PartialEq, Eq)]
pub enum JsonValue {
    /// `null`
    Null,
    /// `true` or `false`
    Bool(bool),
    /// A number.
    Number(JsonNumber),
    /// A string.
    String(String),
    /// An array.
    Array(Vec<JsonValue>),
    /// An object: names with their values.
    Object(Vec<(String, JsonValue)>),
}

/// The mathematical form of a [`JsonValue`].
pub enum JsonView {
    Null,
    Bool(bool),
    Number(JsonNumberView),
    String(Seq<char>),
    Array(Seq<JsonView>),
    Object(Seq<(Seq<char>, JsonView)>),
}

/// What a JSON value holds, as a mathematical value.
pub open spec fn json_view(value: JsonValue) -> JsonView
    decreases value,
{
    match value {
        JsonValue::Null => JsonView::Null,
        JsonValue::Bool(b) => JsonView::Bool(b),
        JsonValue::Number(n) => JsonView::Number(n@),
        JsonValue::String(s) => JsonView::String(s@),
        JsonValue::Array(items) => JsonView::Array(
            Seq::new(
                items@.len(),
                |i: int|
                    if 0 <= i < items@.len() {
                        json_view(items@[i])
                    } else {
                        JsonView::Null
                    },
            ),
        ),
        JsonValue::Object(members) => JsonView::Object(
            Seq::new(
                members@.len(),
                |i: int|
                    if 0 <= i < members@.len() {
                        (members@[i].0@, json_view(members@[i].1))
                    } else {
                        (Seq::empty(), JsonView::Null)
                    },
            ),
        ),
    }
}

impl View for JsonValue {
    type V = JsonView;

    open spec fn view(&self) -> JsonView {
        json_view(*self)
    }
}

/// The views of a sequence of JSON values, in the same order.
pub open spec fn json_views(items: Seq<JsonValue>) -> Seq<JsonView> {
    Seq::new(items.len(), |i: int| items[i]@)
}

/// The view of an array is the array of its items' views.
pub proof fn lemma_array_view(items: Vec<JsonValue>)
    ensures
        JsonValue::Array(items)@ == JsonView::Array(json_views(items@)),
{
    assert(JsonValue::Array(items)@->Array_0 =~= json_views(items@));
}

/// The view of an object is the sequence of its members' views.
pub proof fn lemma_object_view(members: Vec<(String, JsonValue)>)
    ensures
        JsonValue::Object(members)@ == JsonView::Object(entry_views(members@)),
{
    assert(JsonValue::Object(members)@->Object_0 =~= entry_views(members@));
}

/// A copy of a list of JSON values.
pub fn clone_json_items(items: &Vec<JsonValue>) -> (copy: Vec<JsonValue>)
    ensures
        json_views(copy@) == json_views(items@),
    decreases items, 0nat,
{
    let mut copy: Vec<JsonValue> = Vec::new();
    let mut i: usize = 0;
    while i < items.len()
        invariant
            i <= items.len(),
            copy.len() == i,
            forall|j: int| 0 <= j < i ==> copy@[j]@ == items@[j]@,
        decreases items.len() - i,
    {
        copy.push(clone_json(&items[i]));
        i = i + 1;
    }
    assert(json_views(copy@) =~= json_views(items@));
    copy
}

/// A copy of the members of an object.
pub fn clone_json_members(members: &Vec<(String, JsonValue)>) -> (copy: Vec<(String, JsonValue)>)
    ensures
        entry_views(copy@) == entry_views(members@),
    decreases members, 0nat,
{
    let mut copy: Vec<(String, JsonValue)> = Vec::new();
    let mut i: usize = 0;
    while i < members.len()
        invariant
            i <= members.len(),
            copy.len() == i,
            forall|j: int|
                0 <= j < i ==> copy@[j].0@ == members@[j].0@ && copy@[j].1@ == members@[j].1@,
        decreases members.len() - i,
    {
        let name = members[i].0.clone();
        let value = clone_json(&members[i].1);
        copy.push((name, value));
        i = i + 1;
    }
    assert(entry_views(copy@) =~= entry_views(members@));
    copy
}

/// A copy of a JSON value.
pub fn clone_json(value: &JsonValue) -> (copy: JsonValue)
    ensures
        copy@ == value@,
    decreases value, 1nat,
{
    match value {
        JsonValue::Null => JsonValue::Null,
        JsonValue::Bool(b) => JsonValue::Bool(*b),
        JsonValue::Number(n) => JsonValue::Number(n.clone()),
        JsonValue::String(s) => JsonValue::String(s.clone()),
        JsonValue::Array(items) => {
            let copy = clone_json_items(items);
            proof {
                lemma_array_view(*items);
                lemma_array_view(copy);
            }
            JsonValue::Array(copy)
        },
        JsonValue::Object(members) => {
            let copy = clone_json_members(members);
            proof {
                lemma_object_view(*members);
                lemma_object_view(copy);
            }
            JsonValue::Object(copy)
        },
    }
}

impl Clone for JsonValue {
    fn clone(&self) -> (copy: Self)
        ensures
            copy@ == self@,
    {
        clone_json(self)
    }
}

/// The JSON text that `serde_json` writes for a value: compact, the members
/// of an object in the order of their names.
pub uninterp spec fn json_text(value: JsonView) -> Seq<char>;

/// The value that `serde_json` reads from a text, if the text is JSON.
pub uninterp spec fn json_parsed(text: Seq<char>) -> Option<JsonView>;

/// The `serde_json::Value` that holds what `value` holds, made with
/// `Value::from`, with `serde_json::from_str` for the text of a decimal
/// number, and with `collect` for the items of an array and the members of
/// an object. Where an object names a member twice, the later one stays, as
/// `serde_json`'s map has it; a decimal text that is no JSON number becomes
/// `null`.
#[verifier::external_body]
fn to_serde(value: &JsonValue) -> serde_json::Value {
    match value {
        JsonValue::Null => serde_json::Value::Null,
        JsonValue::Bool(b) => serde_json::Value::Bool(*b),
        JsonValue::Number(JsonNumber::Int(n)) => serde_json::Value::from(*n),
        JsonValue::Number(JsonNumber::Decimal(t)) => serde_json::from_str::<serde_json::Number>(t)
            .map_or(serde_json::Value::Null, serde_json::Value::Number),
        JsonValue::String(s) => serde_json::Value::from(s.as_str()),
        JsonValue::Array(items) => items.iter().map(to_serde).collect(),
        JsonValue::Object(members) => {
            members.iter().map(|m| (m.0.clone(), to_serde(&m.1))).collect()
        },
    }
}

/// The value of this library that holds what a `serde_json::Value` holds,
/// variant by variant. A number for which `Number::as_i64` gives an integer
/// is that integer; any other number is held by the text that
/// `Number::to_string` writes for it. The members of an object come in the
/// order in which `serde_json`'s map hands them out.
#[verifier::external_body]
fn from_serde(value: &serde_json::Value) -> JsonValue {
    match value {
        serde_json::Value::Null => JsonValue::Null,
        serde_json::Value::Bool(b) => JsonValue::Bool(*b),
        serde_json::Value::Number(n) => JsonValue::Number(
            n.as_i64().map_or_else(|| JsonNumber::Decimal(n.to_string()), JsonNumber::Int),
        ),
        serde_json::Value::String(s) => JsonValue::String(s.clone()),
        serde_json::Value::Array(items) => JsonValue::Array(items.iter().map(from_serde).collect()),
        serde_json::Value::Object(map) => JsonValue::Object(
            map.iter().map(|(name, v)| (name.clone(), from_serde(v))).collect(),
        ),
    }
}

/// `ToString::to_string` of `serde_json::Value`: the compact JSON text of the
/// value. The text depends on nothing but the value.
#[verifier::external_body]
fn write_json(value: &JsonValue) -> (text: String)
    ensures
        text@ == json_text(value@),
{
    to_serde(value).to_string()
}

/// `serde_json::from_str` for a `serde_json::Value`: the value that the text
/// states, or nothing where the text is not JSON. The outcome depends on
/// nothing but the text.
#[verifier::external_body]
fn read_json(text: &str) -> (value: Option<JsonValue>)
    ensures
        option_view(value) == json_parsed(text@),
{
    serde_json::from_str::<serde_json::Value>(text).ok().map(|v| from_serde(&v))
}

impl JsonValue {
    /// The JSON string with the content `text`.
    pub fn string(text: &str) -> (value: Self)
        ensures
            value@ == JsonView::String(text@),
    {
        JsonValue::String(text.to_owned())
    }

    /// The JSON number `n`.
    pub fn integer(n: i64) -> (value: Self)
        ensures
            value@ == JsonView::Number(JsonNumberView::Int(n)),
    {
        JsonValue::Number(JsonNumber::Int(n))
    }

    /// The JSON number with the decimal text `text`.
    pub fn decimal(text: &str) -> (value: Self)
        ensures
            value@ == JsonView::Number(JsonNumberView::Decimal(text@)),
    {
        JsonValue::Number(JsonNumber::Decimal(text.to_owned()))
    }

    /// The compact JSON text of this value.
    pub fn to_text(&self) -> (text: String)
        ensures
            text@ == json_text(self@),
    {
        write_json(self)
    }

    /// The value that `text` states, or `None` where `text` is not JSON.
    pub fn parse(text: &str) -> (value: Option<JsonValue>)
        ensures
            option_view(value) == json_parsed(text@),
    {
        read_json(text)
    }
}

} // verus!
