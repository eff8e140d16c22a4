//! Attribute definitions for Langfuse and OpenTelemetry GenAI semantic conventions.
//!
//! This module names the attribute keys of both vocabularies and offers
//! builders for the attribute sets of a trace and of an observation.

use crate::assoc::{distinct_keys, entry_views, set_entry, upsert};
use crate::context::{tags_json, tags_to_json};
use crate::convert::{json_to_plain_value, plain_value_of_json};
use crate::json::{JsonNumberView, JsonValue, JsonView};
use crate::key_value::{string_views, views, KeyValue, KeyValueView};
use crate::text::concat3;
use vstd::prelude::*;

verus! {

/// Langfuse-specific attribute names.
///
/// These attributes map span attributes directly to the Langfuse data
/// model. They take precedence over the generic OpenTelemetry conventions.
pub struct LangfuseAttributes;

impl LangfuseAttributes {
    /// Name of the trace
    pub const TRACE_NAME: &'static str = "langfuse.trace.name";

    /// Unique identifier for the end-user
    pub const TRACE_USER_ID: &'static str = "user.id";

    /// Unique identifier for the user session
    pub const TRACE_SESSION_ID: &'static str = "session.id";

    /// Tags associated with the trace
    pub const TRACE_TAGS: &'static str = "langfuse.trace.tags";

    /// Whether the trace is public
    pub const TRACE_PUBLIC: &'static str = "langfuse.trace.public";

    /// Metadata for the trace
    pub const TRACE_METADATA: &'static str = "langfuse.trace.metadata";

    /// Input data for the trace
    pub const TRACE_INPUT: &'static str = "langfuse.trace.input";

    /// Output data for the trace
    pub const TRACE_OUTPUT: &'static str = "langfuse.trace.output";

    /// Type of observation (e.g., "generation", "span", "event")
    pub const OBSERVATION_TYPE: &'static str = "langfuse.observation.type";

    /// Metadata for the observation
    pub const OBSERVATION_METADATA: &'static str = "langfuse.observation.metadata";

    /// Name of the generative model used
    pub const OBSERVATION_MODEL: &'static str = "langfuse.observation.model.name";

    /// Model parameters as JSON string
    pub const OBSERVATION_MODEL_PARAMETERS: &'static str = "langfuse.observation.model.parameters";

    /// Input data for the observation
    pub const OBSERVATION_INPUT: &'static str = "langfuse.observation.input";

    /// Output data for the observation
    pub const OBSERVATION_OUTPUT: &'static str = "langfuse.observation.output";

    /// Completion start time
    pub const OBSERVATION_COMPLETION_START_TIME: &'static str =
        "langfuse.observation.completion_start_time";

    /// Number of tokens of the input
    pub const OBSERVATION_USAGE_INPUT: &'static str = "langfuse.observation.usage.input";

    /// Number of tokens of the output
    pub const OBSERVATION_USAGE_OUTPUT: &'static str = "langfuse.observation.usage.output";

    /// Number of tokens in all
    pub const OBSERVATION_USAGE_TOTAL: &'static str = "langfuse.observation.usage.total";
}

/// OpenTelemetry GenAI semantic convention attributes.
///
/// These follow the OpenTelemetry specification for generative AI systems.
pub struct OpenTelemetryGenAIAttributes;

impl OpenTelemetryGenAIAttributes {
    /// The name of the GenAI model being used
    pub const REQUEST_MODEL: &'static str = "gen_ai.request.model";

    /// Temperature setting for the model
    pub const REQUEST_TEMPERATURE: &'static str = "gen_ai.request.temperature";

    /// Maximum tokens to generate
    pub const REQUEST_MAX_TOKENS: &'static str = "gen_ai.request.max_tokens";

    /// Top-p sampling parameter
    pub const REQUEST_TOP_P: &'static str = "gen_ai.request.top_p";

    /// Top-k sampling parameter
    pub const REQUEST_TOP_K: &'static str = "gen_ai.request.top_k";

    /// Stop sequences
    pub const REQUEST_STOP_SEQUENCES: &'static str = "gen_ai.request.stop_sequences";

    /// Frequency penalty
    pub const REQUEST_FREQUENCY_PENALTY: &'static str = "gen_ai.request.frequency_penalty";

    /// Presence penalty
    pub const REQUEST_PRESENCE_PENALTY: &'static str = "gen_ai.request.presence_penalty";

    /// The unique identifier of the response
    pub const RESPONSE_ID: &'static str = "gen_ai.response.id";

    /// The model used for the response
    pub const RESPONSE_MODEL: &'static str = "gen_ai.response.model";

    /// Finish reasons for the response
    pub const RESPONSE_FINISH_REASONS: &'static str = "gen_ai.response.finish_reasons";

    /// Number of tokens in the prompt (input)
    pub const USAGE_PROMPT_TOKENS: &'static str = "gen_ai.usage.prompt_tokens";

    /// Number of tokens in the completion (output)
    pub const USAGE_COMPLETION_TOKENS: &'static str = "gen_ai.usage.completion_tokens";

    /// Total number of tokens used
    pub const USAGE_TOTAL_TOKENS: &'static str = "gen_ai.usage.total_tokens";

    /// JSON-serialized prompts
    pub const PROMPT_JSON: &'static str = "gen_ai.prompt_json";

    /// JSON-serialized completions
    pub const COMPLETION_JSON: &'static str = "gen_ai.completion_json";

    /// Role of the first prompt
    pub const PROMPT_0_ROLE: &'static str = "gen_ai.prompt.0.role";

    /// Content of the first prompt
    pub const PROMPT_0_CONTENT: &'static str = "gen_ai.prompt.0.content";

    /// Role of the first completion
    pub const COMPLETION_0_ROLE: &'static str = "gen_ai.completion.0.role";

    /// Content of the first completion
    pub const COMPLETION_0_CONTENT: &'static str = "gen_ai.completion.0.content";

    /// The GenAI system being used (e.g., "openai")
    pub const SYSTEM: &'static str = "gen_ai.system";

    /// The type of GenAI operation
    pub const OPERATION_NAME: &'static str = "gen_ai.operation.name";
}

/// Attribute names with the JSON values set under them.
pub type AttributeViews = Seq<(Seq<char>, JsonView)>;

/// The key of the metadata named `name` below the metadata key `base`.
pub open spec fn metadata_key(base: Seq<char>, name: Seq<char>) -> Seq<char> {
    base + "."@ + name
}

/// The span attributes of the attributes of a builder: a string, a truth
/// value and a number keep their type, every other value is written as its
/// JSON text.
pub open spec fn built_attributes(attributes: AttributeViews) -> Seq<KeyValueView> {
    attributes.map_values(
        |entry: (Seq<char>, JsonView)|
            KeyValueView { key: entry.0, value: plain_value_of_json(entry.1) },
    )
}

/// The span attributes of the entries of a builder, in their order.
pub fn build_attributes(entries: Vec<(String, JsonValue)>) -> (attributes: Vec<KeyValue>)
    ensures
        views(attributes@) == built_attributes(entry_views(entries@)),
{
    let mut out: Vec<KeyValue> = Vec::new();
    let mut i: usize = 0;
    while i < entries.len()
        invariant
            i <= entries.len(),
            out.len() == i,
            forall|j: int|
                0 <= j < i ==> out@[j]@ == (KeyValueView {
                    key: entries@[j].0@,
                    value: plain_value_of_json(entries@[j].1@),
                }),
        decreases entries.len() - i,
    {
        out.push(
            KeyValue {
                key: entries[i].0.clone(),
                value: json_to_plain_value(entries[i].1.clone()),
            },
        );
        i = i + 1;
    }
    out
}

/// Builder for constructing trace attributes.
///
/// A key holds one value: setting it again replaces the value. The
/// attributes are built in the order in which their keys were first set.
#[derive(Debug)]
pub struct TraceAttributesBuilder {
    attributes: Vec<(String, JsonValue)>,
}

impl View for TraceAttributesBuilder {
    type V = AttributeViews;

    closed spec fn view(&self) -> AttributeViews {
        entry_views(self.attributes@)
    }
}

impl TraceAttributesBuilder {
    #[verifier::type_invariant]
    spec fn well_formed(self) -> bool {
        distinct_keys(entry_views(self.attributes@))
    }

    /// Creates a new trace attributes builder.
    pub fn new() -> (builder: Self)
        ensures
            builder@ == Seq::<(Seq<char>, JsonView)>::empty(),
    {
        let attributes: Vec<(String, JsonValue)> = Vec::new();
        assert(entry_views(attributes@) =~= Seq::<(Seq<char>, JsonView)>::empty());
        TraceAttributesBuilder { attributes }
    }

    /// The builder with `value` under `key`.
    pub fn attribute(self, key: &str, value: JsonValue) -> (builder: Self)
        ensures
            builder@ == upsert(self@, key@, value@),
    {
        proof {
            use_type_invariant(&self);
        }
        let TraceAttributesBuilder { attributes } = self;
        let mut attributes = attributes;
        set_entry(&mut attributes, key.to_owned(), value);
        TraceAttributesBuilder { attributes }
    }

    /// Sets the trace name.
    pub fn name(self, name: &str) -> (builder: Self)
        ensures
            builder@ == upsert(self@, LangfuseAttributes::TRACE_NAME@, JsonView::String(name@)),
    {
        self.attribute(LangfuseAttributes::TRACE_NAME, JsonValue::string(name))
    }

    /// Sets the user ID.
    pub fn user_id(self, user_id: &str) -> (builder: Self)
        ensures
            builder@ == upsert(
                self@,
                LangfuseAttributes::TRACE_USER_ID@,
                JsonView::String(user_id@),
            ),
    {
        self.attribute(LangfuseAttributes::TRACE_USER_ID, JsonValue::string(user_id))
    }

    /// Sets the session ID.
    pub fn session_id(self, session_id: &str) -> (builder: Self)
        ensures
            builder@ == upsert(
                self@,
                LangfuseAttributes::TRACE_SESSION_ID@,
                JsonView::String(session_id@),
            ),
    {
        self.attribute(LangfuseAttributes::TRACE_SESSION_ID, JsonValue::string(session_id))
    }

    /// Adds tags to the trace, as a JSON array of strings.
    pub fn tags(self, tags: Vec<String>) -> (builder: Self)
        ensures
            builder@ == upsert(
                self@,
                LangfuseAttributes::TRACE_TAGS@,
                tags_json(string_views(tags@)),
            ),
    {
        self.attribute(LangfuseAttributes::TRACE_TAGS, tags_to_json(&tags))
    }

    /// Sets whether the trace is public.
    pub fn public(self, is_public: bool) -> (builder: Self)
        ensures
            builder@ == upsert(self@, LangfuseAttributes::TRACE_PUBLIC@, JsonView::Bool(is_public)),
    {
        self.attribute(LangfuseAttributes::TRACE_PUBLIC, JsonValue::Bool(is_public))
    }

    /// Adds metadata to the trace, under the metadata key with `key` behind it.
    pub fn metadata(self, key: &str, value: JsonValue) -> (builder: Self)
        ensures
            builder@ == upsert(
                self@,
                metadata_key(LangfuseAttributes::TRACE_METADATA@, key@),
                value@,
            ),
    {
        let metadata_key = concat3(LangfuseAttributes::TRACE_METADATA, ".", key);
        self.attribute(metadata_key.as_str(), value)
    }

    /// Sets the input data.
    pub fn input(self, input: JsonValue) -> (builder: Self)
        ensures
            builder@ == upsert(self@, LangfuseAttributes::TRACE_INPUT@, input@),
    {
        self.attribute(LangfuseAttributes::TRACE_INPUT, input)
    }

    /// Sets the output data.
    pub fn output(self, output: JsonValue) -> (builder: Self)
        ensures
            builder@ == upsert(self@, LangfuseAttributes::TRACE_OUTPUT@, output@),
    {
        self.attribute(LangfuseAttributes::TRACE_OUTPUT, output)
    }

    /// Builds the attributes as key-value pairs, one for each key that was
    /// set, in the order in which the keys were first set.
    pub fn build(self) -> (attributes: Vec<KeyValue>)
        ensures
            views(attributes@) == built_attributes(self@),
    {
        build_attributes(self.attributes)
    }
}

impl Default for TraceAttributesBuilder {
    fn default() -> (builder: Self)
        ensures
            builder@ == Seq::<(Seq<char>, JsonView)>::empty(),
    {
        Self::new()
    }
}

impl Clone for TraceAttributesBuilder {
    fn clone(&self) -> (copy: Self)
        ensures
            copy@ == self@,
    {
        proof {
            use_type_invariant(self);
        }
        TraceAttributesBuilder { attributes: crate::json::clone_json_members(&self.attributes) }
    }
}

/// The attributes of a builder after the token usage was set: the two
/// counts and their sum.
pub open spec fn with_usage(
    attributes: AttributeViews,
    input_tokens: i64,
    output_tokens: i64,
) -> AttributeViews {
    upsert(
        upsert(
            upsert(
                attributes,
                LangfuseAttributes::OBSERVATION_USAGE_INPUT@,
                JsonView::Number(JsonNumberView::Int(input_tokens)),
            ),
            LangfuseAttributes::OBSERVATION_USAGE_OUTPUT@,
            JsonView::Number(JsonNumberView::Int(output_tokens)),
        ),
        LangfuseAttributes::OBSERVATION_USAGE_TOTAL@,
        JsonView::Number(JsonNumberView::Int((input_tokens + output_tokens) as i64)),
    )
}

/// Builder for constructing observation attributes.
///
/// A key holds one value: setting it again replaces the value. The
/// attributes are built in the order in which their keys were first set.
#[derive(Debug)]
pub struct ObservationAttributesBuilder {
    attributes: Vec<(String, JsonValue)>,
}

impl View for ObservationAttributesBuilder {
    type V = AttributeViews;

    closed spec fn view(&self) -> AttributeViews {
        entry_views(self.attributes@)
    }
}

impl ObservationAttributesBuilder {
    #[verifier::type_invariant]
    spec fn well_formed(self) -> bool {
        distinct_keys(entry_views(self.attributes@))
    }

    /// Creates a new observation attributes builder.
    pub fn new() -> (builder: Self)
        ensures
            builder@ == Seq::<(Seq<char>, JsonView)>::empty(),
    {
        let attributes: Vec<(String, JsonValue)> = Vec::new();
        assert(entry_views(attributes@) =~= Seq::<(Seq<char>, JsonView)>::empty());
        ObservationAttributesBuilder { attributes }
    }

    /// The builder with `value` under `key`.
    pub fn attribute(self, key: &str, value: JsonValue) -> (builder: Self)
        ensures
            builder@ == upsert(self@, key@, value@),
    {
        proof {
            use_type_invariant(&self);
        }
        let ObservationAttributesBuilder { attributes } = self;
        let mut attributes = attributes;
        set_entry(&mut attributes, key.to_owned(), value);
        ObservationAttributesBuilder { attributes }
    }

    /// Sets the observation type.
    pub fn observation_type(self, obs_type: &str) -> (builder: Self)
        ensures
            builder@ == upsert(
                self@,
                LangfuseAttributes::OBSERVATION_TYPE@,
                JsonView::String(obs_type@),
            ),
    {
        self.attribute(LangfuseAttributes::OBSERVATION_TYPE, JsonValue::string(obs_type))
    }

    /// Sets the model name.
    pub fn model(self, model: &str) -> (builder: Self)
        ensures
            builder@ == upsert(
                self@,
                LangfuseAttributes::OBSERVATION_MODEL@,
                JsonView::String(model@),
            ),
    {
        self.attribute(LangfuseAttributes::OBSERVATION_MODEL, JsonValue::string(model))
    }

    /// Sets the model parameters.
    pub fn model_parameters(self, params: JsonValue) -> (builder: Self)
        ensures
            builder@ == upsert(self@, LangfuseAttributes::OBSERVATION_MODEL_PARAMETERS@, params@),
    {
        self.attribute(LangfuseAttributes::OBSERVATION_MODEL_PARAMETERS, params)
    }

    /// Sets the input data.
    pub fn input(self, input: JsonValue) -> (builder: Self)
        ensures
            builder@ == upsert(self@, LangfuseAttributes::OBSERVATION_INPUT@, input@),
    {
        self.attribute(LangfuseAttributes::OBSERVATION_INPUT, input)
    }

    /// Sets the output data.
    pub fn output(self, output: JsonValue) -> (builder: Self)
        ensures
            builder@ == upsert(self@, LangfuseAttributes::OBSERVATION_OUTPUT@, output@),
    {
        self.attribute(LangfuseAttributes::OBSERVATION_OUTPUT, output)
    }

    /// Sets token usage information: the two counts and their sum, which
    /// must fit the integer of an attribute.
    pub fn usage(self, input_tokens: i64, output_tokens: i64) -> (builder: Self)
        requires
            i64::MIN <= input_tokens + output_tokens <= i64::MAX,
        ensures
            builder@ == with_usage(self@, input_tokens, output_tokens),
    {
        let total = input_tokens + output_tokens;
        self.attribute(
            LangfuseAttributes::OBSERVATION_USAGE_INPUT,
            JsonValue::integer(input_tokens),
        ).attribute(
            LangfuseAttributes::OBSERVATION_USAGE_OUTPUT,
            JsonValue::integer(output_tokens),
        ).attribute(LangfuseAttributes::OBSERVATION_USAGE_TOTAL, JsonValue::integer(total))
    }

    /// Adds metadata to the observation, under the metadata key with `key`
    /// behind it.
    pub fn metadata(self, key: &str, value: JsonValue) -> (builder: Self)
        ensures
            builder@ == upsert(
                self@,
                metadata_key(LangfuseAttributes::OBSERVATION_METADATA@, key@),
                value@,
            ),
    {
        let metadata_key = concat3(LangfuseAttributes::OBSERVATION_METADATA, ".", key);
        self.attribute(metadata_key.as_str(), value)
    }

    /// Builds the attributes as key-value pairs, one for each key that was
    /// set, in the order in which the keys were first set.
    pub fn build(self) -> (attributes: Vec<KeyValue>)
        ensures
            views(attributes@) == built_attributes(self@),
    {
        build_attributes(self.attributes)
    }
}

impl Default for ObservationAttributesBuilder {
    fn default() -> (builder: Self)
        ensures
            builder@ == Seq::<(Seq<char>, JsonView)>::empty(),
    {
        Self::new()
    }
}

impl Clone for ObservationAttributesBuilder {
    fn clone(&self) -> (copy: Self)
        ensures
            copy@ == self@,
    {
        proof {
            use_type_invariant(self);
        }
        ObservationAttributesBuilder {
            attributes: crate::json::clone_json_members(&self.attributes),
        }
    }
}

} // verus!
