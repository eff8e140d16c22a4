//! Enriching spans with Langfuse attributes.
//!
//! The setters of this module write an attribute under the key of each
//! vocabulary that has one for it. They work on [`SpanAttributes`], the
//! attributes of one span in the order in which they were set; handing them
//! to a span of OpenTelemetry is left to the caller.

use crate::attributes::{LangfuseAttributes, OpenTelemetryGenAIAttributes};
use crate::context::{tags_json, tags_to_json};
use crate::json::{json_text, lemma_object_view, JsonNumber, JsonNumberView, JsonValue, JsonView};
use crate::key_value::{
    bool_attribute, int_attribute, string_views, text_attribute, views, AttributeValue,
    AttributeValueView, Float, FloatView, KeyValue, KeyValueView,
};
use crate::mapper::{attribute, MemberViews, REQUEST_PREFIX};
use crate::assoc::entry_views;
use crate::text::{concat, concat3, decimal, decimal_text};
use vstd::prelude::*;

verus! {

/// The prefix of the keys of free metadata.
pub const METADATA_PREFIX: &'static str = "langfuse.metadata.";

/// The suffix of the key that holds the role of a prompt or a completion.
pub const ROLE_SUFFIX: &'static str = ".role";

/// The attributes that were set on a span, in the order in which they were set.
#[derive(Debug, PartialEq, Eq)]
pub struct SpanAttributes {
    /// The attributes, the first one set first.
    pub attributes: Vec<KeyValue>,
}

impl View for SpanAttributes {
    type V = Seq<KeyValueView>;

    open spec fn view(&self) -> Seq<KeyValueView> {
        views(self.attributes@)
    }
}

impl SpanAttributes {
    /// No attributes.
    pub fn new() -> (span: Self)
        ensures
            span@ == Seq::<KeyValueView>::empty(),
    {
        let attributes: Vec<KeyValue> = Vec::new();
        assert(views(attributes@) =~= Seq::<KeyValueView>::empty());
        SpanAttributes { attributes }
    }

    /// Sets one attribute, behind those that are there.
    pub fn set_attribute(&mut self, attribute: KeyValue)
        ensures
            final(self)@ == old(self)@.push(attribute@),
    {
        self.attributes.push(attribute);
    }
}

/// The float attribute with the key `key`.
pub open spec fn float_attribute(key: Seq<char>, value: FloatView) -> KeyValueView {
    attribute(key, AttributeValueView::F64(value))
}

/// The request attribute of one member of a parameter object: a number, a
/// string and a truth value give one, every other value gives none.
pub open spec fn parameter_attribute(name: Seq<char>, value: JsonView) -> Option<KeyValueView> {
    let key = REQUEST_PREFIX@ + name;
    match value {
        JsonView::Number(JsonNumberView::Int(n)) => Some(int_attribute(key, n)),
        JsonView::Number(JsonNumberView::Decimal(text)) => Some(
            float_attribute(key, FloatView::Finite(text)),
        ),
        JsonView::String(s) => Some(text_attribute(key, s)),
        JsonView::Bool(b) => Some(bool_attribute(key, b)),
        _ => None,
    }
}

/// The request attributes of the members of a parameter object, in the
/// order of the members.
pub open spec fn parameter_attributes(members: MemberViews) -> Seq<KeyValueView>
    decreases members.len(),
{
    if members.len() == 0 {
        Seq::empty()
    } else {
        match parameter_attribute(members.last().0, members.last().1) {
            Some(attr) => parameter_attributes(members.drop_last()).push(attr),
            None => parameter_attributes(members.drop_last()),
        }
    }
}

/// The attributes that stand for model parameters: the JSON text of the
/// parameters under the Langfuse key, and, where the parameters are an
/// object, the request attributes of its members.
pub open spec fn model_parameter_attributes(params: JsonView) -> Seq<KeyValueView> {
    let blob = text_attribute(
        LangfuseAttributes::OBSERVATION_MODEL_PARAMETERS@,
        json_text(params),
    );
    match params {
        JsonView::Object(members) => seq![blob] + parameter_attributes(members),
        _ => seq![blob],
    }
}

/// The key of a part of the prompt or completion with the number `index`:
/// the prefix, the number, the suffix.
pub open spec fn indexed_key(prefix: Seq<char>, index: nat, suffix: Seq<char>) -> Seq<char> {
    prefix + decimal(index) + suffix
}

/// The two attributes of a message: its role and its content.
pub open spec fn message_attributes(
    prefix: Seq<char>,
    index: nat,
    role: Seq<char>,
    content: Seq<char>,
) -> Seq<KeyValueView> {
    seq![
        text_attribute(indexed_key(prefix, index, ROLE_SUFFIX@), role),
        text_attribute(indexed_key(prefix, index, crate::mapper::CONTENT_SUFFIX@), content),
    ]
}

/// The six attributes of a token usage: the two counts and their sum under
/// the GenAI keys, then under the Langfuse keys.
pub open spec fn usage_attributes(prompt_tokens: i64, completion_tokens: i64) -> Seq<KeyValueView> {
    let total = (prompt_tokens + completion_tokens) as i64;
    seq![
        int_attribute(OpenTelemetryGenAIAttributes::USAGE_PROMPT_TOKENS@, prompt_tokens),
        int_attribute(OpenTelemetryGenAIAttributes::USAGE_COMPLETION_TOKENS@, completion_tokens),
        int_attribute(OpenTelemetryGenAIAttributes::USAGE_TOTAL_TOKENS@, total),
        int_attribute(LangfuseAttributes::OBSERVATION_USAGE_INPUT@, prompt_tokens),
        int_attribute(LangfuseAttributes::OBSERVATION_USAGE_OUTPUT@, completion_tokens),
        int_attribute(LangfuseAttributes::OBSERVATION_USAGE_TOTAL@, total),
    ]
}

/// Extension trait for adding Langfuse-specific attributes to spans.
pub trait LangfuseSpanExt: Sized {
    /// Adds Langfuse trace name
    fn set_trace_name(&mut self, name: &str) -> &mut Self;

    /// Adds user ID
    fn set_user_id(&mut self, user_id: &str) -> &mut Self;

    /// Adds session ID
    fn set_session_id(&mut self, session_id: &str) -> &mut Self;

    /// Adds trace tags
    fn set_trace_tags(&mut self, tags: Vec<String>) -> &mut Self;

    /// Adds trace metadata
    fn set_trace_metadata(&mut self, metadata: JsonValue) -> &mut Self;

    /// Adds observation model
    fn set_observation_model(&mut self, model: &str) -> &mut Self;

    /// Adds observation type
    fn set_observation_type(&mut self, obs_type: &str) -> &mut Self;

    /// Adds input usage tokens
    fn set_input_tokens(&mut self, tokens: i64) -> &mut Self;

    /// Adds output usage tokens
    fn set_output_tokens(&mut self, tokens: i64) -> &mut Self;

    /// Adds total usage tokens
    fn set_total_tokens(&mut self, tokens: i64) -> &mut Self;

    /// Adds model parameters as JSON
    fn set_model_parameters(&mut self, params: JsonValue) -> &mut Self;

    /// Adds arbitrary Langfuse metadata
    fn add_langfuse_metadata(&mut self, key: &str, value: JsonValue) -> &mut Self;
}

/// The request attributes of the members of a parameter object.
pub fn members_to_attributes(members: &Vec<(String, JsonValue)>) -> (outputs: Vec<KeyValue>)
    ensures
        views(outputs@) == parameter_attributes(entry_views(members@)),
{
    let ghost all = entry_views(members@);
    let mut outputs: Vec<KeyValue> = Vec::new();
    let mut i: usize = 0;
    while i < members.len()
        invariant
            i <= members.len(),
            all == entry_views(members@),
            views(outputs@) == parameter_attributes(all.take(i as int)),
        decreases members.len() - i,
    {
        proof {
            assert(all.take(i + 1).drop_last() =~= all.take(i as int));
            assert(all.take(i + 1).last() == all[i as int]);
        }
        let key = concat(REQUEST_PREFIX, members[i].0.as_str());
        match &members[i].1 {
            JsonValue::Number(JsonNumber::Int(n)) => {
                outputs.push(KeyValue { key, value: AttributeValue::I64(*n) });
            },
            JsonValue::Number(JsonNumber::Decimal(text)) => {
                outputs.push(
                    KeyValue { key, value: AttributeValue::F64(Float::Finite(text.clone())) },
                );
            },
            JsonValue::String(s) => {
                outputs.push(KeyValue { key, value: AttributeValue::String(s.clone()) });
            },
            JsonValue::Bool(b) => {
                outputs.push(KeyValue { key, value: AttributeValue::Bool(*b) });
            },
            _ => {},
        }
        i = i + 1;
    }
    proof {
        assert(all.take(i as int) =~= all);
    }
    outputs
}

impl LangfuseSpanExt for SpanAttributes {
    fn set_trace_name(&mut self, name: &str) -> (span: &mut Self)
        ensures
            span@ == old(self)@.push(text_attribute(LangfuseAttributes::TRACE_NAME@, name@)),
            *final(self) == *final(span),
    {
        self.set_attribute(KeyValue::text(LangfuseAttributes::TRACE_NAME, name));
        self
    }

    fn set_user_id(&mut self, user_id: &str) -> (span: &mut Self)
        ensures
            span@ == old(self)@.push(text_attribute(LangfuseAttributes::TRACE_USER_ID@, user_id@)),
            *final(self) == *final(span),
    {
        self.set_attribute(KeyValue::text(LangfuseAttributes::TRACE_USER_ID, user_id));
        self
    }

    fn set_session_id(&mut self, session_id: &str) -> (span: &mut Self)
        ensures
            span@ == old(self)@.push(
                text_attribute(LangfuseAttributes::TRACE_SESSION_ID@, session_id@),
            ),
            *final(self) == *final(span),
    {
        self.set_attribute(KeyValue::text(LangfuseAttributes::TRACE_SESSION_ID, session_id));
        self
    }

    /// The tags are written as the JSON text of an array of strings.
    fn set_trace_tags(&mut self, tags: Vec<String>) -> (span: &mut Self)
        ensures
            span@ == old(self)@.push(
                text_attribute(
                    LangfuseAttributes::TRACE_TAGS@,
                    json_text(tags_json(string_views(tags@))),
                ),
            ),
            *final(self) == *final(span),
    {
        let tags_text = tags_to_json(&tags).to_text();
        self.set_attribute(KeyValue::text(LangfuseAttributes::TRACE_TAGS, tags_text.as_str()));
        self
    }

    /// The metadata is written as JSON text.
    fn set_trace_metadata(&mut self, metadata: JsonValue) -> (span: &mut Self)
        ensures
            span@ == old(self)@.push(
                text_attribute(LangfuseAttributes::TRACE_METADATA@, json_text(metadata@)),
            ),
            *final(self) == *final(span),
    {
        let metadata_text = metadata.to_text();
        self.set_attribute(
            KeyValue::text(LangfuseAttributes::TRACE_METADATA, metadata_text.as_str()),
        );
        self
    }

    /// The model is written under the Langfuse key, then under the GenAI key.
    fn set_observation_model(&mut self, model: &str) -> (span: &mut Self)
        ensures
            span@ == old(self)@ + seq![
                text_attribute(LangfuseAttributes::OBSERVATION_MODEL@, model@),
                text_attribute(OpenTelemetryGenAIAttributes::REQUEST_MODEL@, model@),
            ],
            *final(self) == *final(span),
    {
        self.set_attribute(KeyValue::text(LangfuseAttributes::OBSERVATION_MODEL, model));
        self.set_attribute(KeyValue::text(OpenTelemetryGenAIAttributes::REQUEST_MODEL, model));
        self
    }

    fn set_observation_type(&mut self, obs_type: &str) -> (span: &mut Self)
        ensures
            span@ == old(self)@.push(
                text_attribute(LangfuseAttributes::OBSERVATION_TYPE@, obs_type@),
            ),
            *final(self) == *final(span),
    {
        self.set_attribute(KeyValue::text(LangfuseAttributes::OBSERVATION_TYPE, obs_type));
        self
    }

    /// The count is written under the Langfuse key, then under the GenAI key.
    fn set_input_tokens(&mut self, tokens: i64) -> (span: &mut Self)
        ensures
            span@ == old(self)@ + seq![
                int_attribute(LangfuseAttributes::OBSERVATION_USAGE_INPUT@, tokens),
                int_attribute(OpenTelemetryGenAIAttributes::USAGE_PROMPT_TOKENS@, tokens),
            ],
            *final(self) == *final(span),
    {
        self.set_attribute(KeyValue::integer(LangfuseAttributes::OBSERVATION_USAGE_INPUT, tokens));
        self.set_attribute(
            KeyValue::integer(OpenTelemetryGenAIAttributes::USAGE_PROMPT_TOKENS, tokens),
        );
        self
    }

    /// The count is written under the Langfuse key, then under the GenAI key.
    fn set_output_tokens(&mut self, tokens: i64) -> (span: &mut Self)
        ensures
            span@ == old(self)@ + seq![
                int_attribute(LangfuseAttributes::OBSERVATION_USAGE_OUTPUT@, tokens),
                int_attribute(OpenTelemetryGenAIAttributes::USAGE_COMPLETION_TOKENS@, tokens),
            ],
            *final(self) == *final(span),
    {
        self.set_attribute(
            KeyValue::integer(LangfuseAttributes::OBSERVATION_USAGE_OUTPUT, tokens),
        );
        self.set_attribute(
            KeyValue::integer(OpenTelemetryGenAIAttributes::USAGE_COMPLETION_TOKENS, tokens),
        );
        self
    }

    /// The count is written under the Langfuse key, then under the GenAI key.
    fn set_total_tokens(&mut self, tokens: i64) -> (span: &mut Self)
        ensures
            span@ == old(self)@ + seq![
                int_attribute(LangfuseAttributes::OBSERVATION_USAGE_TOTAL@, tokens),
                int_attribute(OpenTelemetryGenAIAttributes::USAGE_TOTAL_TOKENS@, tokens),
            ],
            *final(self) == *final(span),
    {
        self.set_attribute(KeyValue::integer(LangfuseAttributes::OBSERVATION_USAGE_TOTAL, tokens));
        self.set_attribute(
            KeyValue::integer(OpenTelemetryGenAIAttributes::USAGE_TOTAL_TOKENS, tokens),
        );
        self
    }

    /// The parameters are written as JSON text under the Langfuse key.
    /// Where they are an object, each member that is a number, a string or
    /// a truth value is written as a request attribute of its own.
    fn set_model_parameters(&mut self, params: JsonValue) -> (span: &mut Self)
        ensures
            span@ == old(self)@ + model_parameter_attributes(params@),
            *final(self) == *final(span),
    {
        let params_text = params.to_text();
        self.set_attribute(
            KeyValue::text(
                LangfuseAttributes::OBSERVATION_MODEL_PARAMETERS,
                params_text.as_str(),
            ),
        );
        match params {
            JsonValue::Object(members) => {
                proof {
                    lemma_object_view(members);
                }
                let more = members_to_attributes(&members);
                crate::key_value::append_attributes(&mut self.attributes, more);
            },
            _ => {
            },
        }
        self
    }

    /// The value is written as JSON text under the key behind the metadata prefix.
    fn add_langfuse_metadata(&mut self, key: &str, value: JsonValue) -> (span: &mut Self)
        ensures
            span@ == old(self)@.push(text_attribute(METADATA_PREFIX@ + key@, json_text(value@))),
            *final(self) == *final(span),
    {
        let full_key = concat(METADATA_PREFIX, key);
        let value_text = value.to_text();
        self.set_attribute(KeyValue::text(full_key.as_str(), value_text.as_str()));
        self
    }
}

/// Extension trait for adding GenAI-specific attributes to spans.
pub trait GenAISpanExt: Sized {
    /// Whether the sum of the two counts fits the integer of an attribute.
    spec fn usage_fits(prompt_tokens: i64, completion_tokens: i64) -> bool;

    /// Sets the model name
    fn set_gen_ai_model(&mut self, model: &str) -> &mut Self;

    /// Sets the temperature parameter
    fn set_gen_ai_temperature(&mut self, temperature: Float) -> &mut Self;

    /// Sets the max tokens parameter
    fn set_gen_ai_max_tokens(&mut self, max_tokens: i64) -> &mut Self;

    /// Sets the top_p parameter
    fn set_gen_ai_top_p(&mut self, top_p: Float) -> &mut Self;

    /// Sets the frequency penalty
    fn set_gen_ai_frequency_penalty(&mut self, penalty: Float) -> &mut Self;

    /// Sets the presence penalty
    fn set_gen_ai_presence_penalty(&mut self, penalty: Float) -> &mut Self;

    /// Sets prompt content with role
    fn set_gen_ai_prompt(&mut self, index: usize, role: &str, content: &str) -> &mut Self;

    /// Sets completion content with role
    fn set_gen_ai_completion(&mut self, index: usize, role: &str, content: &str) -> &mut Self;

    /// Sets token usage (prompt, completion, and calculates total)
    fn set_gen_ai_usage(&mut self, prompt_tokens: i64, completion_tokens: i64) -> &mut Self
        requires
            Self::usage_fits(prompt_tokens, completion_tokens),
    ;
}

impl GenAISpanExt for SpanAttributes {
    open spec fn usage_fits(prompt_tokens: i64, completion_tokens: i64) -> bool {
        i64::MIN <= prompt_tokens + completion_tokens <= i64::MAX
    }

    /// The model is written under the GenAI key, then under the Langfuse key.
    fn set_gen_ai_model(&mut self, model: &str) -> (span: &mut Self)
        ensures
            span@ == old(self)@ + seq![
                text_attribute(OpenTelemetryGenAIAttributes::REQUEST_MODEL@, model@),
                text_attribute(LangfuseAttributes::OBSERVATION_MODEL@, model@),
            ],
            *final(self) == *final(span),
    {
        self.set_attribute(KeyValue::text(OpenTelemetryGenAIAttributes::REQUEST_MODEL, model));
        self.set_attribute(KeyValue::text(LangfuseAttributes::OBSERVATION_MODEL, model));
        self
    }

    fn set_gen_ai_temperature(&mut self, temperature: Float) -> (span: &mut Self)
        ensures
            span@ == old(self)@.push(
                float_attribute(OpenTelemetryGenAIAttributes::REQUEST_TEMPERATURE@, temperature@),
            ),
            *final(self) == *final(span),
    {
        self.set_attribute(
            KeyValue::new(
                OpenTelemetryGenAIAttributes::REQUEST_TEMPERATURE,
                AttributeValue::F64(temperature),
            ),
        );
        self
    }

    fn set_gen_ai_max_tokens(&mut self, max_tokens: i64) -> (span: &mut Self)
        ensures
            span@ == old(self)@.push(
                int_attribute(OpenTelemetryGenAIAttributes::REQUEST_MAX_TOKENS@, max_tokens),
            ),
            *final(self) == *final(span),
    {
        self.set_attribute(
            KeyValue::integer(OpenTelemetryGenAIAttributes::REQUEST_MAX_TOKENS, max_tokens),
        );
        self
    }

    fn set_gen_ai_top_p(&mut self, top_p: Float) -> (span: &mut Self)
        ensures
            span@ == old(self)@.push(
                float_attribute(OpenTelemetryGenAIAttributes::REQUEST_TOP_P@, top_p@),
            ),
            *final(self) == *final(span),
    {
        self.set_attribute(
            KeyValue::new(OpenTelemetryGenAIAttributes::REQUEST_TOP_P, AttributeValue::F64(top_p)),
        );
        self
    }

    fn set_gen_ai_frequency_penalty(&mut self, penalty: Float) -> (span: &mut Self)
        ensures
            span@ == old(self)@.push(
                float_attribute(OpenTelemetryGenAIAttributes::REQUEST_FREQUENCY_PENALTY@, penalty@),
            ),
            *final(self) == *final(span),
    {
        self.set_attribute(
            KeyValue::new(
                OpenTelemetryGenAIAttributes::REQUEST_FREQUENCY_PENALTY,
                AttributeValue::F64(penalty),
            ),
        );
        self
    }

    fn set_gen_ai_presence_penalty(&mut self, penalty: Float) -> (span: &mut Self)
        ensures
            span@ == old(self)@.push(
                float_attribute(OpenTelemetryGenAIAttributes::REQUEST_PRESENCE_PENALTY@, penalty@),
            ),
            *final(self) == *final(span),
    {
        self.set_attribute(
            KeyValue::new(
                OpenTelemetryGenAIAttributes::REQUEST_PRESENCE_PENALTY,
                AttributeValue::F64(penalty),
            ),
        );
        self
    }

    /// The role and the content are written under the keys of the prompt
    /// with the number `index`.
    fn set_gen_ai_prompt(&mut self, index: usize, role: &str, content: &str) -> (span: &mut Self)
        ensures
            span@ == old(self)@ + message_attributes(
                crate::mapper::PROMPT_PREFIX@,
                index as nat,
                role@,
                content@,
            ),
            *final(self) == *final(span),
    {
        let number = decimal_text(index as u128);
        let role_key = concat3(crate::mapper::PROMPT_PREFIX, number.as_str(), ROLE_SUFFIX);
        let content_key = concat3(
            crate::mapper::PROMPT_PREFIX,
            number.as_str(),
            crate::mapper::CONTENT_SUFFIX,
        );
        self.set_attribute(KeyValue::text(role_key.as_str(), role));
        self.set_attribute(KeyValue::text(content_key.as_str(), content));
        self
    }

    /// The role and the content are written under the keys of the
    /// completion with the number `index`.
    fn set_gen_ai_completion(&mut self, index: usize, role: &str, content: &str) -> (span:
        &mut Self)
        ensures
            span@ == old(self)@ + message_attributes(
                crate::mapper::COMPLETION_PREFIX@,
                index as nat,
                role@,
                content@,
            ),
            *final(self) == *final(span),
    {
        let number = decimal_text(index as u128);
        let role_key = concat3(crate::mapper::COMPLETION_PREFIX, number.as_str(), ROLE_SUFFIX);
        let content_key = concat3(
            crate::mapper::COMPLETION_PREFIX,
            number.as_str(),
            crate::mapper::CONTENT_SUFFIX,
        );
        self.set_attribute(KeyValue::text(role_key.as_str(), role));
        self.set_attribute(KeyValue::text(content_key.as_str(), content));
        self
    }

    /// The two counts and their sum are written under the GenAI keys, then
    /// under the Langfuse keys. The sum must fit the integer of an attribute.
    fn set_gen_ai_usage(&mut self, prompt_tokens: i64, completion_tokens: i64) -> (span:
        &mut Self)
        ensures
            span@ == old(self)@ + usage_attributes(prompt_tokens, completion_tokens),
            *final(self) == *final(span),
    {
        let total = prompt_tokens + completion_tokens;
        self.set_attribute(
            KeyValue::integer(OpenTelemetryGenAIAttributes::USAGE_PROMPT_TOKENS, prompt_tokens),
        );
        self.set_attribute(
            KeyValue::integer(
                OpenTelemetryGenAIAttributes::USAGE_COMPLETION_TOKENS,
                completion_tokens,
            ),
        );
        self.set_attribute(
            KeyValue::integer(OpenTelemetryGenAIAttributes::USAGE_TOTAL_TOKENS, total),
        );
        self.set_attribute(
            KeyValue::integer(LangfuseAttributes::OBSERVATION_USAGE_INPUT, prompt_tokens),
        );
        self.set_attribute(
            KeyValue::integer(LangfuseAttributes::OBSERVATION_USAGE_OUTPUT, completion_tokens),
        );
        self.set_attribute(
            KeyValue::integer(LangfuseAttributes::OBSERVATION_USAGE_TOTAL, total),
        );
        self
    }
}

} // verus!
