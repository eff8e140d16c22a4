//! Span attributes as plain values.
//!
//! These types stand for the key-value pairs of OpenTelemetry. They hold
//! what the mapping rules read: the key, and the value with its type.

use vstd::prelude::*;
use vstd::string::StringExecFns;

verus! {

/// A 64-bit floating-point value, carried but never computed with.
///
/// A finite value is held as its decimal text in the form that JSON uses
/// for numbers; the values that JSON has no text for have a variant each.
#[derive(Debug, PartialEq, Eq)]
pub enum Float {
    /// A finite value, by its decimal text.
    Finite(String),
    /// Not a number.
    NaN,
    /// Positive infinity.
    Infinity,
    /// Negative infinity.
    NegInfinity,
}

/// The mathematical form of a [`Float`].
pub enum FloatView {
    Finite(Seq<char>),
    NaN,
    Infinity,
    NegInfinity,
}

impl View for Float {
    type V = FloatView;

    open spec fn view(&self) -> FloatView {
        match self {
            Float::Finite(text) => FloatView::Finite(text@),
            Float::NaN => FloatView::NaN,
            Float::Infinity => FloatView::Infinity,
            Float::NegInfinity => FloatView::NegInfinity,
        }
    }
}

impl Clone for Float {
    fn clone(&self) -> (copy: Self)
        ensures
            copy@ == self@,
    {
        match self {
            Float::Finite(text) => Float::Finite(text.clone()),
            Float::NaN => Float::NaN,
            Float::Infinity => Float::Infinity,
            Float::NegInfinity => Float::NegInfinity,
        }
    }
}

/// The views of a sequence of strings, in the same order.
pub open spec fn string_views(items: Seq<String>) -> Seq<Seq<char>> {
    items.map_values(|s: String| s@)
}

/// The views of a sequence of floats, in the same order.
pub open spec fn float_views(items: Seq<Float>) -> Seq<FloatView> {
    items.map_values(|f: Float| f@)
}

/// A homogeneous array of attribute values.
#[derive(Debug, PartialEq, Eq)]
pub enum ArrayValue {
    /// Array of bools.
    Bool(Vec<bool>),
    /// Array of integers.
    I64(Vec<i64>),
    /// Array of floats.
    F64(Vec<Float>),
    /// Array of strings.
    String(Vec<String>),
}

/// The mathematical form of an [`ArrayValue`].
pub enum ArrayView {
    Bool(Seq<bool>),
    I64(Seq<i64>),
    F64(Seq<FloatView>),
    String(Seq<Seq<char>>),
}

impl View for ArrayValue {
    type V = ArrayView;

    open spec fn view(&self) -> ArrayView {
        match self {
            ArrayValue::Bool(items) => ArrayView::Bool(items@),
            ArrayValue::I64(items) => ArrayView::I64(items@),
            ArrayValue::F64(items) => ArrayView::F64(float_views(items@)),
            ArrayValue::String(items) => ArrayView::String(string_views(items@)),
        }
    }
}

/// A copy of a list of strings.
pub fn clone_strings(items: &Vec<String>) -> (copy: Vec<String>)
    ensures
        string_views(copy@) == string_views(items@),
{
    let mut copy: Vec<String> = Vec::new();
    let mut i: usize = 0;
    while i < items.len()
        invariant
            i <= items.len(),
            copy.len() == i,
            forall|j: int| 0 <= j < i ==> copy@[j]@ == items@[j]@,
        decreases items.len() - i,
    {
        copy.push(items[i].clone());
        i = i + 1;
    }
    assert(string_views(copy@) =~= string_views(items@));
    copy
}

/// A copy of a list of floats.
pub fn clone_floats(items: &Vec<Float>) -> (copy: Vec<Float>)
    ensures
        float_views(copy@) == float_views(items@),
{
    let mut copy: Vec<Float> = Vec::new();
    let mut i: usize = 0;
    while i < items.len()
        invariant
            i <= items.len(),
            copy.len() == i,
            forall|j: int| 0 <= j < i ==> copy@[j]@ == items@[j]@,
        decreases items.len() - i,
    {
        copy.push(items[i].clone());
        i = i + 1;
    }
    assert(float_views(copy@) =~= float_views(items@));
    copy
}

impl Clone for ArrayValue {
    fn clone(&self) -> (copy: Self)
        ensures
            copy@ == self@,
    {
        match self {
            ArrayValue::Bool(items) => {
                let mut copy: Vec<bool> = Vec::new();
                let mut i: usize = 0;
                while i < items.len()
                    invariant
                        i <= items.len(),
                        copy@ == items@.take(i as int),
                    decreases items.len() - i,
                {
                    copy.push(items[i]);
                    assert(items@.take(i + 1) == items@.take(i as int).push(items@[i as int]));
                    i = i + 1;
                }
                assert(items@.take(i as int) == items@);
                ArrayValue::Bool(copy)
            },
            ArrayValue::I64(items) => {
                let mut copy: Vec<i64> = Vec::new();
                let mut i: usize = 0;
                while i < items.len()
                    invariant
                        i <= items.len(),
                        copy@ == items@.take(i as int),
                    decreases items.len() - i,
                {
                    copy.push(items[i]);
                    assert(items@.take(i + 1) == items@.take(i as int).push(items@[i as int]));
                    i = i + 1;
                }
                assert(items@.take(i as int) == items@);
                ArrayValue::I64(copy)
            },
            ArrayValue::F64(items) => ArrayValue::F64(clone_floats(items)),
            ArrayValue::String(items) => ArrayValue::String(clone_strings(items)),
        }
    }
}

/// The value of an attribute.
#[derive(Debug, PartialEq, Eq)]
pub enum AttributeValue {
    /// bool values
    Bool(bool),
    /// i64 values
    I64(i64),
    /// f64 values
    F64(Float),
    /// String values
    String(String),
    /// Array of homogeneous values
    Array(ArrayValue),
}

/// The mathematical form of a [`AttributeValue`].
pub enum AttributeValueView {
    Bool(bool),
    I64(i64),
    F64(FloatView),
    String(Seq<char>),
    Array(ArrayView),
}

impl View for AttributeValue {
    type V = AttributeValueView;

    open spec fn view(&self) -> AttributeValueView {
        match self {
            AttributeValue::Bool(b) => AttributeValueView::Bool(*b),
            AttributeValue::I64(n) => AttributeValueView::I64(*n),
            AttributeValue::F64(f) => AttributeValueView::F64(f@),
            AttributeValue::String(s) => AttributeValueView::String(s@),
            AttributeValue::Array(a) => AttributeValueView::Array(a@),
        }
    }
}

impl Clone for AttributeValue {
    fn clone(&self) -> (copy: Self)
        ensures
            copy@ == self@,
    {
        match self {
            AttributeValue::Bool(b) => AttributeValue::Bool(*b),
            AttributeValue::I64(n) => AttributeValue::I64(*n),
            AttributeValue::F64(f) => AttributeValue::F64(f.clone()),
            AttributeValue::String(s) => AttributeValue::String(s.clone()),
            AttributeValue::Array(a) => AttributeValue::Array(a.clone()),
        }
    }
}

/// A key with the value recorded under it.
#[derive(Debug, PartialEq, Eq)]
pub struct KeyValue {
    /// The attribute name.
    pub key: String,
    /// The attribute value.
    pub value: AttributeValue,
}

/// The mathematical form of a [`KeyValue`].
pub struct KeyValueView {
    pub key: Seq<char>,
    pub value: AttributeValueView,
}

impl View for KeyValue {
    type V = KeyValueView;

    open spec fn view(&self) -> KeyValueView {
        KeyValueView { key: self.key@, value: self.value@ }
    }
}

impl Clone for KeyValue {
    fn clone(&self) -> (copy: Self)
        ensures
            copy@ == self@,
    {
        KeyValue { key: self.key.clone(), value: self.value.clone() }
    }
}

/// The views of a sequence of attributes, in the same order.
pub open spec fn views(attributes: Seq<KeyValue>) -> Seq<KeyValueView> {
    attributes.map_values(|kv: KeyValue| kv@)
}

/// The attribute with key `key` and the text `value`.
pub open spec fn text_attribute(key: Seq<char>, value: Seq<char>) -> KeyValueView {
    KeyValueView { key, value: AttributeValueView::String(value) }
}

/// The attribute with key `key` and the integer `value`.
pub open spec fn int_attribute(key: Seq<char>, value: i64) -> KeyValueView {
    KeyValueView { key, value: AttributeValueView::I64(value) }
}

/// The attribute with key `key` and the truth value `value`.
pub open spec fn bool_attribute(key: Seq<char>, value: bool) -> KeyValueView {
    KeyValueView { key, value: AttributeValueView::Bool(value) }
}

impl KeyValue {
    /// Create a new `KeyValue` pair.
    pub fn new(key: &str, value: AttributeValue) -> (kv: Self)
        ensures
            kv@ == (KeyValueView { key: key@, value: value@ }),
    {
        KeyValue { key: String::from_str(key), value }
    }

    /// The pair of `key` and the text `value`.
    pub fn text(key: &str, value: &str) -> (kv: Self)
        ensures
            kv@ == text_attribute(key@, value@),
    {
        KeyValue { key: String::from_str(key), value: AttributeValue::String(String::from_str(value)) }
    }

    /// The pair of `key` and the integer `value`.
    pub fn integer(key: &str, value: i64) -> (kv: Self)
        ensures
            kv@ == int_attribute(key@, value),
    {
        KeyValue { key: String::from_str(key), value: AttributeValue::I64(value) }
    }

    /// The pair of `key` and the truth value `value`.
    pub fn boolean(key: &str, value: bool) -> (kv: Self)
        ensures
            kv@ == bool_attribute(key@, value),
    {
        KeyValue { key: String::from_str(key), value: AttributeValue::Bool(value) }
    }
}

/// Puts the attributes of `more` behind those of `attrs`.
pub fn append_attributes(attrs: &mut Vec<KeyValue>, more: Vec<KeyValue>)
    ensures
        views(final(attrs)@) == views(old(attrs)@) + views(more@),
{
    let mut more = more;
    attrs.append(&mut more);
}

/// A copy of a list of attributes.
pub fn copy_attributes(attributes: &[KeyValue]) -> (copy: Vec<KeyValue>)
    ensures
        views(copy@) == views(attributes@),
{
    let mut copy: Vec<KeyValue> = Vec::new();
    let mut i: usize = 0;
    while i < attributes.len()
        invariant
            i <= attributes.len(),
            copy.len() == i,
            forall|j: int| 0 <= j < i ==> copy@[j]@ == attributes@[j]@,
        decreases attributes.len() - i,
    {
        copy.push(attributes[i].clone());
        i = i + 1;
    }
    assert(views(copy@) =~= views(attributes@));
    copy
}

} // verus!
