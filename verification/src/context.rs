//! Langfuse context helpers for setting trace attributes.
//!
//! A [`LangfuseContext`] stores trace-level attributes as text. It is meant
//! for interceptors and middleware, where each instance keeps its own
//! context and hands its attributes to the spans it creates.

pub mod attributes;

use crate::assoc::{
    contains_key, distinct_keys, entry_views, get_entry, has_entry, lookup, set_entry, upsert,
};
use crate::context::attributes::{
    TRACE_METADATA, TRACE_NAME, TRACE_SESSION_ID, TRACE_TAGS, TRACE_USER_ID,
};
use crate::json::{json_parsed, json_text, JsonValue, JsonView};
use crate::key_value::{string_views, text_attribute, KeyValue, KeyValueView};
use crate::text::concat3;
use vstd::prelude::*;

verus! {

/// The JSON array whose items are the strings `tags`.
pub open spec fn tags_json(tags: Seq<Seq<char>>) -> JsonView {
    JsonView::Array(tags.map_values(|tag: Seq<char>| JsonView::String(tag)))
}

/// The strings that a JSON value lists, if it is an array of strings.
pub open spec fn json_tags(value: JsonView) -> Option<Seq<Seq<char>>> {
    match value {
        JsonView::Array(items) => if forall|i: int| 0 <= i < items.len() ==> items[i] is String {
            Some(items.map_values(|item: JsonView| item->String_0))
        } else {
            None
        },
        _ => None,
    }
}

/// The text of a tag list that holds `tag` alone, written without regard to
/// what `tag` holds: a bracket and a quote, the tag, a quote and a bracket.
pub open spec fn single_tag_text(tag: Seq<char>) -> Seq<char> {
    "[\""@ + tag + "\"]"@
}

/// The text of the tag list after `tag` was added to the list that
/// `existing` states: the tags so far with `tag` behind them, where
/// `existing` is the JSON text of an array of strings; the list of `tag`
/// alone where there was no text or another text.
pub open spec fn tags_with(existing: Option<Seq<char>>, tag: Seq<char>) -> Seq<char> {
    match existing {
        Some(text) => match json_parsed(text) {
            Some(value) => match json_tags(value) {
                Some(tags) => json_text(tags_json(tags.push(tag))),
                None => single_tag_text(tag),
            },
            None => single_tag_text(tag),
        },
        None => single_tag_text(tag),
    }
}

/// The JSON array of the strings `tags`.
pub fn tags_to_json(tags: &Vec<String>) -> (value: JsonValue)
    ensures
        value@ == tags_json(string_views(tags@)),
{
    let mut items: Vec<JsonValue> = Vec::new();
    let mut i: usize = 0;
    while i < tags.len()
        invariant
            i <= tags.len(),
            items.len() == i,
            forall|j: int| 0 <= j < i ==> items@[j]@ == JsonView::String(tags@[j]@),
        decreases tags.len() - i,
    {
        items.push(JsonValue::String(tags[i].clone()));
        i = i + 1;
    }
    proof {
        crate::json::lemma_array_view(items);
        assert(crate::json::json_views(items@) =~= string_views(tags@).map_values(
            |tag: Seq<char>| JsonView::String(tag),
        ));
    }
    JsonValue::Array(items)
}

/// The strings that `value` lists, if it is an array of strings.
pub fn json_to_tags(value: &JsonValue) -> (tags: Option<Vec<String>>)
    ensures
        match tags {
            Some(list) => json_tags(value@) == Some(string_views(list@)),
            None => json_tags(value@) is None,
        },
{
    match value {
        JsonValue::Array(items) => {
            proof {
                crate::json::lemma_array_view(*items);
            }
            let mut tags: Vec<String> = Vec::new();
            let mut i: usize = 0;
            while i < items.len()
                invariant
                    i <= items.len(),
                    tags.len() == i,
                    value@ == JsonView::Array(crate::json::json_views(items@)),
                    forall|j: int| 0 <= j < i ==> items@[j]@ == JsonView::String(tags@[j]@),
                decreases items.len() - i,
            {
                match &items[i] {
                    JsonValue::String(s) => {
                        tags.push(s.clone());
                    },
                    _ => {
                        proof {
                            assert(!(crate::json::json_views(items@)[i as int] is String));
                        }
                        return None;
                    },
                }
                i = i + 1;
            }
            Some(tags)
        },
        _ => None,
    }
}

/// Storage for the trace attributes of one context.
///
/// The attributes set here are meant to be included in every span that is
/// created within the context. A key holds one value: setting it again
/// replaces the value and keeps the key's place.
pub struct LangfuseContext {
    attributes: Vec<(String, String)>,
}

impl View for LangfuseContext {
    type V = Seq<(Seq<char>, Seq<char>)>;

    /// The attributes, as pairs of key and value in the order in which the
    /// keys were first set.
    closed spec fn view(&self) -> Seq<(Seq<char>, Seq<char>)> {
        entry_views(self.attributes@)
    }
}

impl LangfuseContext {
    #[verifier::type_invariant]
    spec fn well_formed(self) -> bool {
        distinct_keys(entry_views(self.attributes@))
    }

    /// What the context holds under `key`.
    pub open spec fn value_of(&self, key: Seq<char>) -> Option<Seq<char>> {
        lookup(self@, key)
    }

    /// Create a new empty context.
    #[must_use]
    pub fn new() -> (context: Self)
        ensures
            context@ == Seq::<(Seq<char>, Seq<char>)>::empty(),
    {
        let attributes: Vec<(String, String)> = Vec::new();
        assert(entry_views(attributes@) =~= Seq::<(Seq<char>, Seq<char>)>::empty());
        LangfuseContext { attributes }
    }

    /// Set the session ID for the current trace.
    pub fn set_session_id(&mut self, session_id: &str) -> (context: &mut Self)
        ensures
            context@ == upsert(old(self)@, TRACE_SESSION_ID@, session_id@),
            *final(self) == *final(context),
    {
        self.set_attribute(TRACE_SESSION_ID, session_id)
    }

    /// Set the user ID for the current trace.
    pub fn set_user_id(&mut self, user_id: &str) -> (context: &mut Self)
        ensures
            context@ == upsert(old(self)@, TRACE_USER_ID@, user_id@),
            *final(self) == *final(context),
    {
        self.set_attribute(TRACE_USER_ID, user_id)
    }

    /// Add tags to the current trace.
    ///
    /// Tags are stored as the JSON text of an array of strings; they replace
    /// the tags that were there.
    pub fn add_tags(&mut self, tags: Vec<String>) -> (context: &mut Self)
        ensures
            context@ == upsert(
                old(self)@,
                TRACE_TAGS@,
                json_text(tags_json(string_views(tags@))),
            ),
            *final(self) == *final(context),
    {
        let tags_text = tags_to_json(&tags).to_text();
        self.set_attribute(TRACE_TAGS, tags_text.as_str())
    }

    /// Add a single tag behind the tags that are there.
    ///
    /// Where the stored value is not the JSON text of an array of strings,
    /// the new tag replaces it.
    pub fn add_tag(&mut self, tag: &str) -> (context: &mut Self)
        ensures
            context@ == upsert(
                old(self)@,
                TRACE_TAGS@,
                tags_with(old(self).value_of(TRACE_TAGS@), tag@),
            ),
            *final(self) == *final(context),
    {
        let existing = self.get_attribute(TRACE_TAGS);
        let tags_text = match existing {
            Some(text) => match JsonValue::parse(text.as_str()) {
                Some(value) => match json_to_tags(&value) {
                    Some(mut tags) => {
                        let ghost before = string_views(tags@);
                        tags.push(tag.to_owned());
                        proof {
                            assert(string_views(tags@) =~= before.push(tag@));
                        }
                        tags_to_json(&tags).to_text()
                    },
                    None => concat3("[\"", tag, "\"]"),
                },
                None => concat3("[\"", tag, "\"]"),
            },
            None => concat3("[\"", tag, "\"]"),
        };
        self.set_attribute(TRACE_TAGS, tags_text.as_str())
    }

    /// Set metadata, stored as JSON text.
    pub fn set_metadata(&mut self, metadata: &JsonValue) -> (context: &mut Self)
        ensures
            context@ == upsert(old(self)@, TRACE_METADATA@, json_text(metadata@)),
            *final(self) == *final(context),
    {
        let metadata_text = metadata.to_text();
        self.set_attribute(TRACE_METADATA, metadata_text.as_str())
    }

    /// Set a custom attribute.
    pub fn set_attribute(&mut self, key: &str, value: &str) -> (context: &mut Self)
        ensures
            context@ == upsert(old(self)@, key@, value@),
            distinct_keys(old(self)@),
            distinct_keys(context@),
            *final(self) == *final(context),
    {
        proof {
            use_type_invariant(&*self);
        }
        let mut attributes: Vec<(String, String)> = Vec::new();
        core::mem::swap(&mut self.attributes, &mut attributes);
        set_entry(&mut attributes, key.to_owned(), value.to_owned());
        self.attributes = attributes;
        self
    }

    /// Set the trace name.
    pub fn set_trace_name(&mut self, name: &str) -> (context: &mut Self)
        ensures
            context@ == upsert(old(self)@, TRACE_NAME@, name@),
            *final(self) == *final(context),
    {
        self.set_attribute(TRACE_NAME, name)
    }

    /// Clear all attributes.
    pub fn clear(&mut self)
        ensures
            final(self)@ == Seq::<(Seq<char>, Seq<char>)>::empty(),
    {
        let attributes: Vec<(String, String)> = Vec::new();
        assert(entry_views(attributes@) =~= Seq::<(Seq<char>, Seq<char>)>::empty());
        self.attributes = attributes;
    }

    /// Get all current attributes as key-value pairs, in the order in which
    /// the keys were first set.
    #[must_use]
    pub fn get_attributes(&self) -> (attributes: Vec<KeyValue>)
        ensures
            crate::key_value::views(attributes@) == self@.map_values(
                |entry: (Seq<char>, Seq<char>)| text_attribute(entry.0, entry.1),
            ),
    {
        let mut out: Vec<KeyValue> = Vec::new();
        let mut i: usize = 0;
        while i < self.attributes.len()
            invariant
                i <= self.attributes.len(),
                out.len() == i,
                forall|j: int|
                    0 <= j < i ==> out@[j]@ == text_attribute(
                        self.attributes@[j].0@,
                        self.attributes@[j].1@,
                    ),
            decreases self.attributes.len() - i,
        {
            let entry = &self.attributes[i];
            out.push(KeyValue::text(entry.0.as_str(), entry.1.as_str()));
            i = i + 1;
        }
        out
    }

    /// Check if a specific attribute is set.
    #[must_use]
    pub fn has_attribute(&self, key: &str) -> (held: bool)
        ensures
            held == contains_key(self@, key@),
    {
        has_entry(&self.attributes, key)
    }

    /// Get a specific attribute value.
    #[must_use]
    pub fn get_attribute(&self, key: &str) -> (value: Option<String>)
        ensures
            match value {
                Some(text) => self.value_of(key@) == Some(text@),
                None => self.value_of(key@) is None,
            },
    {
        match get_entry(&self.attributes, key) {
            Some(text) => Some(text.clone()),
            None => None,
        }
    }
}

impl Default for LangfuseContext {
    fn default() -> (context: Self)
        ensures
            context@ == Seq::<(Seq<char>, Seq<char>)>::empty(),
    {
        Self::new()
    }
}

/// Builder pattern for fluent API.
pub struct LangfuseContextBuilder {
    context: LangfuseContext,
}

impl View for LangfuseContextBuilder {
    type V = Seq<(Seq<char>, Seq<char>)>;

    /// The attributes of the context that `build` will return.
    closed spec fn view(&self) -> Seq<(Seq<char>, Seq<char>)> {
        self.context@
    }
}

impl Default for LangfuseContextBuilder {
    fn default() -> (builder: Self)
        ensures
            builder@ == Seq::<(Seq<char>, Seq<char>)>::empty(),
    {
        Self::new()
    }
}

impl LangfuseContextBuilder {
    /// Create a new builder.
    #[must_use]
    pub fn new() -> (builder: Self)
        ensures
            builder@ == Seq::<(Seq<char>, Seq<char>)>::empty(),
    {
        LangfuseContextBuilder { context: LangfuseContext::new() }
    }

    /// Set session ID.
    #[must_use]
    pub fn session_id(self, session_id: &str) -> (builder: Self)
        ensures
            builder@ == upsert(self@, TRACE_SESSION_ID@, session_id@),
    {
        let mut builder = self;
        builder.context.set_session_id(session_id);
        builder
    }

    /// Set user ID.
    #[must_use]
    pub fn user_id(self, user_id: &str) -> (builder: Self)
        ensures
            builder@ == upsert(self@, TRACE_USER_ID@, user_id@),
    {
        let mut builder = self;
        builder.context.set_user_id(user_id);
        builder
    }

    /// Add tags.
    #[must_use]
    pub fn tags(self, tags: Vec<String>) -> (builder: Self)
        ensures
            builder@ == upsert(self@, TRACE_TAGS@, json_text(tags_json(string_views(tags@)))),
    {
        let mut builder = self;
        builder.context.add_tags(tags);
        builder
    }

    /// Set metadata.
    #[must_use]
    pub fn metadata(self, metadata: &JsonValue) -> (builder: Self)
        ensures
            builder@ == upsert(self@, TRACE_METADATA@, json_text(metadata@)),
    {
        let mut builder = self;
        builder.context.set_metadata(metadata);
        builder
    }

    /// Set trace name.
    #[must_use]
    pub fn trace_name(self, name: &str) -> (builder: Self)
        ensures
            builder@ == upsert(self@, TRACE_NAME@, name@),
    {
        let mut builder = self;
        builder.context.set_trace_name(name);
        builder
    }

    /// Build the context.
    #[must_use]
    pub fn build(self) -> (context: LangfuseContext)
        ensures
            context@ == self@,
    {
        self.context
    }
}

/// The span under which a context was opened, by its two identifiers.
#[derive(Clone, Copy, Debug, PartialEq, Eq, Structural)]
pub struct SpanReference {
    /// The identifier of the trace.
    pub trace_id: u128,
    /// The identifier of the span.
    pub span_id: u64,
}

/// The prefix of the keys under which a tracing context holds metadata.
pub const METADATA_KEY_PREFIX: &'static str = "langfuse.trace.metadata.";

/// A tracing context: attributes with JSON values, and the span under which
/// the context was opened, if there is one.
///
/// A context is a value of its own. A child starts with what its parent
/// holds at that moment; what is set on either of them afterwards does not
/// reach the other.
#[derive(Debug)]
pub struct TracingContext {
    attributes: Vec<(String, JsonValue)>,
    parent_span: Option<SpanReference>,
}

/// What a [`TracingContext`] holds.
pub struct TracingContextView {
    /// The attributes, in the order in which their keys were first set.
    pub attributes: Seq<(Seq<char>, JsonView)>,
    /// The span under which the context was opened.
    pub parent_span: Option<SpanReference>,
}

impl View for TracingContext {
    type V = TracingContextView;

    closed spec fn view(&self) -> TracingContextView {
        TracingContextView {
            attributes: entry_views(self.attributes@),
            parent_span: self.parent_span,
        }
    }
}

/// The attributes of a context as span attributes: a string, a truth value
/// and a number keep their type, every other value is written as JSON text.
pub open spec fn context_attributes(attributes: Seq<(Seq<char>, JsonView)>) -> Seq<KeyValueView> {
    attributes.map_values(
        |entry: (Seq<char>, JsonView)|
            KeyValueView { key: entry.0, value: crate::convert::plain_value_of_json(entry.1) },
    )
}

impl TracingContext {
    #[verifier::type_invariant]
    spec fn well_formed(self) -> bool {
        distinct_keys(entry_views(self.attributes@))
    }

    /// What the context holds under `key`.
    pub open spec fn value_of(&self, key: Seq<char>) -> Option<JsonView> {
        lookup(self@.attributes, key)
    }

    /// Creates a context that holds nothing.
    pub fn new() -> (context: Self)
        ensures
            context@.attributes == Seq::<(Seq<char>, JsonView)>::empty(),
            context@.parent_span is None,
    {
        let attributes: Vec<(String, JsonValue)> = Vec::new();
        assert(entry_views(attributes@) =~= Seq::<(Seq<char>, JsonView)>::empty());
        TracingContext { attributes, parent_span: None }
    }

    /// Sets an attribute; the value that the key held is replaced.
    pub fn set_attribute(&mut self, key: &str, value: JsonValue)
        ensures
            final(self)@ == (TracingContextView {
                attributes: upsert(old(self)@.attributes, key@, value@),
                ..old(self)@
            }),
            distinct_keys(old(self)@.attributes),
            distinct_keys(final(self)@.attributes),
    {
        proof {
            use_type_invariant(&*self);
        }
        let mut attributes: Vec<(String, JsonValue)> = Vec::new();
        core::mem::swap(&mut self.attributes, &mut attributes);
        set_entry(&mut attributes, key.to_owned(), value);
        self.attributes = attributes;
    }

    /// The context with the attribute set.
    pub fn with_attribute(self, key: &str, value: JsonValue) -> (context: Self)
        ensures
            context@ == (TracingContextView {
                attributes: upsert(self@.attributes, key@, value@),
                ..self@
            }),
    {
        let mut context = self;
        context.set_attribute(key, value);
        context
    }

    /// The context with the session ID set.
    pub fn with_session(self, session_id: &str) -> (context: Self)
        ensures
            context@ == (TracingContextView {
                attributes: upsert(
                    self@.attributes,
                    crate::attributes::LangfuseAttributes::TRACE_SESSION_ID@,
                    JsonView::String(session_id@),
                ),
                ..self@
            }),
    {
        self.with_attribute(
            crate::attributes::LangfuseAttributes::TRACE_SESSION_ID,
            JsonValue::string(session_id),
        )
    }

    /// The context with the user ID set.
    pub fn with_user(self, user_id: &str) -> (context: Self)
        ensures
            context@ == (TracingContextView {
                attributes: upsert(
                    self@.attributes,
                    crate::attributes::LangfuseAttributes::TRACE_USER_ID@,
                    JsonView::String(user_id@),
                ),
                ..self@
            }),
    {
        self.with_attribute(
            crate::attributes::LangfuseAttributes::TRACE_USER_ID,
            JsonValue::string(user_id),
        )
    }

    /// The context with the trace name set.
    pub fn with_name(self, name: &str) -> (context: Self)
        ensures
            context@ == (TracingContextView {
                attributes: upsert(
                    self@.attributes,
                    crate::attributes::LangfuseAttributes::TRACE_NAME@,
                    JsonView::String(name@),
                ),
                ..self@
            }),
    {
        self.with_attribute(
            crate::attributes::LangfuseAttributes::TRACE_NAME,
            JsonValue::string(name),
        )
    }

    /// The context with `value` as the metadata named `key`.
    pub fn with_metadata(self, key: &str, value: JsonValue) -> (context: Self)
        ensures
            context@ == (TracingContextView {
                attributes: upsert(self@.attributes, METADATA_KEY_PREFIX@ + key@, value@),
                ..self@
            }),
    {
        let full_key = crate::text::concat(METADATA_KEY_PREFIX, key);
        self.with_attribute(full_key.as_str(), value)
    }

    /// The context with `span` as the span under which it was opened.
    pub fn with_parent_span(self, span: SpanReference) -> (context: Self)
        ensures
            context@ == (TracingContextView { parent_span: Some(span), ..self@ }),
    {
        let mut context = self;
        proof {
            use_type_invariant(&context);
        }
        context.parent_span = Some(span);
        context
    }

    /// The span under which the context was opened.
    pub fn parent_span(&self) -> (span: Option<SpanReference>)
        ensures
            span == self@.parent_span,
    {
        self.parent_span
    }

    /// The value that the context holds under `key`.
    pub fn get_attribute(&self, key: &str) -> (value: Option<JsonValue>)
        ensures
            match value {
                Some(json) => self.value_of(key@) == Some(json@),
                None => self.value_of(key@) is None,
            },
    {
        match get_entry(&self.attributes, key) {
            Some(json) => Some(json.clone()),
            None => None,
        }
    }

    /// Whether the context holds a value under `key`.
    pub fn has_attribute(&self, key: &str) -> (held: bool)
        ensures
            held == contains_key(self@.attributes, key@),
    {
        has_entry(&self.attributes, key)
    }

    /// A child context: a context of its own that holds what this one
    /// holds now.
    pub fn child(&self) -> (child: Self)
        ensures
            child@ == self@,
            distinct_keys(child@.attributes),
    {
        proof {
            use_type_invariant(self);
        }
        TracingContext {
            attributes: crate::json::clone_json_members(&self.attributes),
            parent_span: self.parent_span,
        }
    }

    /// The attributes of the context as span attributes, in the order in
    /// which their keys were first set.
    pub fn to_otel_attributes(&self) -> (attributes: Vec<KeyValue>)
        ensures
            crate::key_value::views(attributes@) == context_attributes(self@.attributes),
    {
        let mut out: Vec<KeyValue> = Vec::new();
        let mut i: usize = 0;
        while i < self.attributes.len()
            invariant
                i <= self.attributes.len(),
                out.len() == i,
                forall|j: int|
                    0 <= j < i ==> out@[j]@ == (KeyValueView {
                        key: self.attributes@[j].0@,
                        value: crate::convert::plain_value_of_json(self.attributes@[j].1@),
                    }),
            decreases self.attributes.len() - i,
        {
            let entry = &self.attributes[i];
            out.push(
                KeyValue {
                    key: entry.0.clone(),
                    value: crate::convert::json_to_plain_value(entry.1.clone()),
                },
            );
            i = i + 1;
        }
        out
    }
}

impl Default for TracingContext {
    fn default() -> (context: Self)
        ensures
            context@.attributes == Seq::<(Seq<char>, JsonView)>::empty(),
            context@.parent_span is None,
    {
        Self::new()
    }
}

impl Clone for TracingContext {
    fn clone(&self) -> (copy: Self)
        ensures
            copy@ == self@,
    {
        self.child()
    }
}

/// A child that sets an attribute of its own shows it beside what it took
/// from its parent: the key holds the new value, every other key holds what
/// the parent holds. The parent is a value of its own and holds what it
/// held.
pub proof fn lemma_child_keeps_parent_attributes(
    parent: Seq<(Seq<char>, JsonView)>,
    key: Seq<char>,
    value: JsonView,
)
    requires
        distinct_keys(parent),
    ensures
        lookup(upsert(parent, key, value), key) == Some(value),
        forall|other: Seq<char>|
            other != key ==> lookup(upsert(parent, key, value), other) == lookup(parent, other),
        !contains_key(parent, key) ==> upsert(parent, key, value) == parent.push((key, value)),
{
    crate::assoc::lemma_upsert(parent, key, value);
}

} // verus!
