//! Conversions between attribute values and JSON values.

use crate::json::{
    json_text, json_views, lemma_array_view, JsonNumber, JsonNumberView, JsonValue, JsonView,
};
use crate::key_value::{
    ArrayValue, ArrayView, AttributeValue, AttributeValueView, Float,
    FloatView, KeyValue, KeyValueView,
};
use vstd::prelude::*;
use vstd::string::StringExecFns;

verus! {

/// The JSON number of a float: the number with the float's text, and 0 for
/// a float that JSON has no text for.
pub open spec fn json_of_float(f: FloatView) -> JsonView {
    match f {
        FloatView::Finite(text) => JsonView::Number(JsonNumberView::Decimal(text)),
        _ => JsonView::Number(JsonNumberView::Int(0)),
    }
}

/// The JSON array of an array of attribute values, item by item.
pub open spec fn json_of_array(array: ArrayView) -> Seq<JsonView> {
    match array {
        ArrayView::Bool(items) => items.map_values(|b: bool| JsonView::Bool(b)),
        ArrayView::I64(items) => items.map_values(
            |n: i64| JsonView::Number(JsonNumberView::Int(n)),
        ),
        ArrayView::F64(items) => items.map_values(|f: FloatView| json_of_float(f)),
        ArrayView::String(items) => items.map_values(|s: Seq<char>| JsonView::String(s)),
    }
}

/// The JSON value of an attribute value.
pub open spec fn json_of_value(value: AttributeValueView) -> JsonView {
    match value {
        AttributeValueView::Bool(b) => JsonView::Bool(b),
        AttributeValueView::I64(n) => JsonView::Number(JsonNumberView::Int(n)),
        AttributeValueView::F64(f) => json_of_float(f),
        AttributeValueView::String(s) => JsonView::String(s),
        AttributeValueView::Array(array) => JsonView::Array(json_of_array(array)),
    }
}

/// The texts one after the other, with `separator` between neighbours.
pub open spec fn joined(texts: Seq<Seq<char>>, separator: Seq<char>) -> Seq<char>
    decreases texts.len(),
{
    if texts.len() == 0 {
        Seq::empty()
    } else if texts.len() == 1 {
        texts[0]
    } else {
        joined(texts.drop_last(), separator) + separator + texts.last()
    }
}

/// The attribute value of a JSON value, as the attribute mapping has it: a
/// string, a truth value and a number keep their type; an array becomes the
/// JSON texts of its items with commas between them; `null` and an object
/// become their JSON text.
pub open spec fn value_of_json(value: JsonView) -> AttributeValueView {
    match value {
        JsonView::String(s) => AttributeValueView::String(s),
        JsonView::Bool(b) => AttributeValueView::Bool(b),
        JsonView::Number(JsonNumberView::Int(n)) => AttributeValueView::I64(n),
        JsonView::Number(JsonNumberView::Decimal(text)) => AttributeValueView::F64(
            FloatView::Finite(text),
        ),
        JsonView::Array(items) => AttributeValueView::String(
            joined(items.map_values(|item: JsonView| json_text(item)), ","@),
        ),
        _ => AttributeValueView::String(json_text(value)),
    }
}

/// The attribute value of a JSON value, as the attribute builders have it:
/// a string, a truth value and a number keep their type, every other value
/// becomes its JSON text.
pub open spec fn plain_value_of_json(value: JsonView) -> AttributeValueView {
    match value {
        JsonView::String(s) => AttributeValueView::String(s),
        JsonView::Bool(b) => AttributeValueView::Bool(b),
        JsonView::Number(JsonNumberView::Int(n)) => AttributeValueView::I64(n),
        JsonView::Number(JsonNumberView::Decimal(text)) => AttributeValueView::F64(
            FloatView::Finite(text),
        ),
        _ => AttributeValueView::String(json_text(value)),
    }
}

/// An attribute value that reading it back from its JSON value leaves as it
/// is: a truth value, an integer, a string, a finite float.
pub open spec fn is_scalar(value: AttributeValueView) -> bool {
    match value {
        AttributeValueView::Bool(_) => true,
        AttributeValueView::I64(_) => true,
        AttributeValueView::String(_) => true,
        AttributeValueView::F64(f) => f is Finite,
        AttributeValueView::Array(_) => false,
    }
}

/// A scalar attribute value is read back unchanged from its JSON value.
pub proof fn lemma_scalar_round_trip(value: AttributeValueView)
    requires
        is_scalar(value),
    ensures
        value_of_json(json_of_value(value)) == value,
        plain_value_of_json(json_of_value(value)) == value,
        is_scalar(value_of_json(json_of_value(value))),
{
}

/// The JSON number of a float.
pub fn float_to_json(f: &Float) -> (value: JsonValue)
    ensures
        value@ == json_of_float(f@),
{
    match f {
        Float::Finite(text) => JsonValue::Number(JsonNumber::Decimal(text.clone())),
        _ => JsonValue::Number(JsonNumber::Int(0)),
    }
}

/// The JSON items of an array of attribute values.
pub fn array_to_json(array: &ArrayValue) -> (items: Vec<JsonValue>)
    ensures
        json_views(items@) == json_of_array(array@),
{
    let mut items: Vec<JsonValue> = Vec::new();
    match array {
        ArrayValue::Bool(values) => {
            let mut i: usize = 0;
            while i < values.len()
                invariant
                    i <= values.len(),
                    items.len() == i,
                    forall|j: int| 0 <= j < i ==> items@[j]@ == JsonView::Bool(values@[j]),
                decreases values.len() - i,
            {
                items.push(JsonValue::Bool(values[i]));
                i = i + 1;
            }
            assert(json_views(items@) =~= json_of_array(array@));
        },
        ArrayValue::I64(values) => {
            let mut i: usize = 0;
            while i < values.len()
                invariant
                    i <= values.len(),
                    items.len() == i,
                    forall|j: int|
                        0 <= j < i ==> items@[j]@ == JsonView::Number(
                            JsonNumberView::Int(values@[j]),
                        ),
                decreases values.len() - i,
            {
                items.push(JsonValue::Number(JsonNumber::Int(values[i])));
                i = i + 1;
            }
            assert(json_views(items@) =~= json_of_array(array@));
        },
        ArrayValue::F64(values) => {
            let mut i: usize = 0;
            while i < values.len()
                invariant
                    i <= values.len(),
                    items.len() == i,
                    forall|j: int| 0 <= j < i ==> items@[j]@ == json_of_float(values@[j]@),
                decreases values.len() - i,
            {
                items.push(float_to_json(&values[i]));
                i = i + 1;
            }
            assert(json_views(items@) =~= json_of_array(array@));
        },
        ArrayValue::String(values) => {
            let mut i: usize = 0;
            while i < values.len()
                invariant
                    i <= values.len(),
                    items.len() == i,
                    forall|j: int| 0 <= j < i ==> items@[j]@ == JsonView::String(values@[j]@),
                decreases values.len() - i,
            {
                items.push(JsonValue::String(values[i].clone()));
                i = i + 1;
            }
            assert(json_views(items@) =~= json_of_array(array@));
        },
    }
    items
}

/// The JSON value of an attribute value.
pub fn value_to_json(value: &AttributeValue) -> (json: JsonValue)
    ensures
        json@ == json_of_value(value@),
{
    match value {
        AttributeValue::Bool(b) => JsonValue::Bool(*b),
        AttributeValue::I64(n) => JsonValue::Number(JsonNumber::Int(*n)),
        AttributeValue::F64(f) => float_to_json(f),
        AttributeValue::String(s) => JsonValue::String(s.clone()),
        AttributeValue::Array(array) => {
            let items = array_to_json(array);
            proof {
                lemma_array_view(items);
            }
            JsonValue::Array(items)
        },
    }
}

/// The JSON texts of `items` with commas between them.
pub fn join_json_texts(items: &Vec<JsonValue>) -> (text: String)
    ensures
        text@ == joined(json_views(items@).map_values(|item: JsonView| json_text(item)), ","@),
{
    let ghost texts = json_views(items@).map_values(|item: JsonView| json_text(item));
    let mut text = String::new();
    let mut i: usize = 0;
    while i < items.len()
        invariant
            i <= items.len(),
            texts == json_views(items@).map_values(|item: JsonView| json_text(item)),
            text@ == joined(texts.take(i as int), ","@),
        decreases items.len() - i,
    {
        let item_text = items[i].to_text();
        proof {
            assert(texts.take(i + 1).drop_last() =~= texts.take(i as int));
            assert(texts.take(i + 1).last() == texts[i as int]);
            assert(texts[i as int] == item_text@);
        }
        if i > 0 {
            text.append(",");
        } else {
        }
        text.append(item_text.as_str());
        i = i + 1;
    }
    proof {
        assert(texts.take(i as int) =~= texts);
    }
    text
}

/// The attribute value of a JSON value, as the attribute mapping has it.
pub fn json_to_value(value: JsonValue) -> (attribute: AttributeValue)
    ensures
        attribute@ == value_of_json(value@),
{
    match value {
        JsonValue::String(s) => AttributeValue::String(s),
        JsonValue::Bool(b) => AttributeValue::Bool(b),
        JsonValue::Number(JsonNumber::Int(n)) => AttributeValue::I64(n),
        JsonValue::Number(JsonNumber::Decimal(text)) => AttributeValue::F64(Float::Finite(text)),
        JsonValue::Array(items) => {
            proof {
                lemma_array_view(items);
            }
            AttributeValue::String(join_json_texts(&items))
        },
        other => AttributeValue::String(other.to_text()),
    }
}

/// The attribute value of a JSON value, as the attribute builders have it.
pub fn json_to_plain_value(value: JsonValue) -> (attribute: AttributeValue)
    ensures
        attribute@ == plain_value_of_json(value@),
{
    match value {
        JsonValue::String(s) => AttributeValue::String(s),
        JsonValue::Bool(b) => AttributeValue::Bool(b),
        JsonValue::Number(JsonNumber::Int(n)) => AttributeValue::I64(n),
        JsonValue::Number(JsonNumber::Decimal(text)) => AttributeValue::F64(Float::Finite(text)),
        other => AttributeValue::String(other.to_text()),
    }
}

/// The attribute with the key `key` and the value of `value`, as the
/// attribute mapping has it.
pub fn json_to_key_value(key: String, value: JsonValue) -> (attribute: KeyValue)
    ensures
        attribute@ == (KeyValueView { key: key@, value: value_of_json(value@) }),
{
    KeyValue { key, value: json_to_value(value) }
}

} // verus!
