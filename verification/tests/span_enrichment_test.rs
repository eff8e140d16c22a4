use opentelemetry_langfuse::json::JsonValue;
use opentelemetry_langfuse::key_value::{AttributeValue, Float, KeyValue};
use opentelemetry_langfuse::{GenAISpanExt, LangfuseSpanExt, SpanAttributes};

fn float(value: f64) -> Float {
    Float::Finite(serde_json::Number::from_f64(value).unwrap().to_string())
}

fn float_attribute(key: &str, value: f64) -> KeyValue {
    KeyValue::new(key, AttributeValue::F64(float(value)))
}

#[test]
fn test_langfuse_span_extensions() {
    let mut span = SpanAttributes::new();

    span.set_user_id("user-123")
        .set_session_id("session-456")
        .set_trace_name("Test Trace")
        .set_trace_tags(vec!["test".to_string(), "example".to_string()])
        .set_observation_type("generation")
        .set_observation_model("gpt-4");

    assert_eq!(
        span.attributes,
        vec![
            KeyValue::text("user.id", "user-123"),
            KeyValue::text("session.id", "session-456"),
            KeyValue::text("langfuse.trace.name", "Test Trace"),
            KeyValue::text("langfuse.trace.tags", "[\"test\",\"example\"]"),
            KeyValue::text("langfuse.observation.type", "generation"),
            KeyValue::text("langfuse.observation.model.name", "gpt-4"),
            KeyValue::text("gen_ai.request.model", "gpt-4"),
        ]
    );
}

#[test]
fn test_genai_span_extensions() {
    let mut span = SpanAttributes::new();

    span.set_gen_ai_model("gpt-4")
        .set_gen_ai_temperature(float(0.7))
        .set_gen_ai_max_tokens(1000)
        .set_gen_ai_top_p(float(0.9))
        .set_gen_ai_usage(100, 200);

    assert_eq!(
        span.attributes,
        vec![
            KeyValue::text("gen_ai.request.model", "gpt-4"),
            KeyValue::text("langfuse.observation.model.name", "gpt-4"),
            float_attribute("gen_ai.request.temperature", 0.7),
            KeyValue::integer("gen_ai.request.max_tokens", 1000),
            float_attribute("gen_ai.request.top_p", 0.9),
            KeyValue::integer("gen_ai.usage.prompt_tokens", 100),
            KeyValue::integer("gen_ai.usage.completion_tokens", 200),
            KeyValue::integer("gen_ai.usage.total_tokens", 300),
            KeyValue::integer("langfuse.observation.usage.input", 100),
            KeyValue::integer("langfuse.observation.usage.output", 200),
            KeyValue::integer("langfuse.observation.usage.total", 300),
        ]
    );
}

#[test]
fn test_model_parameters() {
    let mut span = SpanAttributes::new();

    let params = JsonValue::Object(vec![
        ("temperature".to_string(), JsonValue::decimal("0.7")),
        ("max_tokens".to_string(), JsonValue::integer(1000)),
        ("top_p".to_string(), JsonValue::decimal("0.9")),
        ("frequency_penalty".to_string(), JsonValue::decimal("0.5")),
        ("presence_penalty".to_string(), JsonValue::decimal("0.3")),
    ]);

    span.set_model_parameters(params);

    assert_eq!(
        span.attributes,
        vec![
            KeyValue::text(
                "langfuse.observation.model.parameters",
                "{\"frequency_penalty\":0.5,\"max_tokens\":1000,\"presence_penalty\":0.3,\"temperature\":0.7,\"top_p\":0.9}"
            ),
            float_attribute("gen_ai.request.temperature", 0.7),
            KeyValue::integer("gen_ai.request.max_tokens", 1000),
            float_attribute("gen_ai.request.top_p", 0.9),
            float_attribute("gen_ai.request.frequency_penalty", 0.5),
            float_attribute("gen_ai.request.presence_penalty", 0.3),
        ]
    );
}

#[test]
fn test_prompt_and_completion() {
    let mut span = SpanAttributes::new();

    span.set_gen_ai_prompt(0, "system", "You are a helpful assistant")
        .set_gen_ai_prompt(1, "user", "Hello!")
        .set_gen_ai_completion(0, "assistant", "Hi there! How can I help you?");

    assert_eq!(
        span.attributes,
        vec![
            KeyValue::text("gen_ai.prompt.0.role", "system"),
            KeyValue::text("gen_ai.prompt.0.content", "You are a helpful assistant"),
            KeyValue::text("gen_ai.prompt.1.role", "user"),
            KeyValue::text("gen_ai.prompt.1.content", "Hello!"),
            KeyValue::text("gen_ai.completion.0.role", "assistant"),
            KeyValue::text("gen_ai.completion.0.content", "Hi there! How can I help you?"),
        ]
    );
}

#[test]
fn test_langfuse_metadata() {
    let mut span = SpanAttributes::new();

    span.add_langfuse_metadata("custom_field", JsonValue::string("custom_value"))
        .add_langfuse_metadata("priority", JsonValue::integer(1))
        .add_langfuse_metadata(
            "tags",
            JsonValue::Array(vec![JsonValue::string("tag1"), JsonValue::string("tag2")]),
        );

    assert_eq!(
        span.attributes,
        vec![
            KeyValue::text("langfuse.metadata.custom_field", "\"custom_value\""),
            KeyValue::text("langfuse.metadata.priority", "1"),
            KeyValue::text("langfuse.metadata.tags", "[\"tag1\",\"tag2\"]"),
        ]
    );
}

#[test]
fn test_token_usage() {
    let mut span = SpanAttributes::new();

    span.set_input_tokens(100)
        .set_output_tokens(200)
        .set_total_tokens(300);

    assert_eq!(
        span.attributes,
        vec![
            KeyValue::integer("langfuse.observation.usage.input", 100),
            KeyValue::integer("gen_ai.usage.prompt_tokens", 100),
            KeyValue::integer("langfuse.observation.usage.output", 200),
            KeyValue::integer("gen_ai.usage.completion_tokens", 200),
            KeyValue::integer("langfuse.observation.usage.total", 300),
            KeyValue::integer("gen_ai.usage.total_tokens", 300),
        ]
    );
}

#[test]
fn test_chained_enrichment() {
    let mut span = SpanAttributes::new();

    span.set_user_id("user-123")
        .set_session_id("session-456")
        .set_observation_model("gpt-4")
        .set_gen_ai_temperature(float(0.7))
        .set_gen_ai_usage(150, 250)
        .add_langfuse_metadata("environment", JsonValue::string("production"));

    assert_eq!(span.attributes.len(), 12);
    assert_eq!(
        span.attributes[7],
        KeyValue::integer("gen_ai.usage.total_tokens", 400)
    );
    assert_eq!(
        span.attributes[11],
        KeyValue::text("langfuse.metadata.environment", "\"production\"")
    );
}

#[test]
fn model_parameters_that_are_no_object_give_the_text_alone() {
    let mut span = SpanAttributes::new();
    span.set_model_parameters(JsonValue::Array(vec![JsonValue::integer(1)]))
        .set_trace_metadata(JsonValue::Object(vec![("k".to_string(), JsonValue::Null)]))
        .set_gen_ai_frequency_penalty(float(0.5))
        .set_gen_ai_presence_penalty(Float::NaN);
    assert_eq!(
        span.attributes,
        vec![
            KeyValue::text("langfuse.observation.model.parameters", "[1]"),
            KeyValue::text("langfuse.trace.metadata", "{\"k\":null}"),
            float_attribute("gen_ai.request.frequency_penalty", 0.5),
            KeyValue::new("gen_ai.request.presence_penalty", AttributeValue::F64(Float::NaN)),
        ]
    );
}

#[test]
fn model_parameters_skip_members_without_a_plain_value() {
    let mut span = SpanAttributes::new();
    span.set_model_parameters(JsonValue::Object(vec![
        ("stop".to_string(), JsonValue::Array(vec![JsonValue::string("x")])),
        ("stream".to_string(), JsonValue::Bool(true)),
        ("none".to_string(), JsonValue::Null),
        ("name".to_string(), JsonValue::string("n")),
    ]));
    assert_eq!(
        span.attributes,
        vec![
            KeyValue::text(
                "langfuse.observation.model.parameters",
                "{\"name\":\"n\",\"none\":null,\"stop\":[\"x\"],\"stream\":true}"
            ),
            KeyValue::boolean("gen_ai.request.stream", true),
            KeyValue::text("gen_ai.request.name", "n"),
        ]
    );
}

#[test]
fn prompt_index_is_written_in_decimal() {
    let mut span = SpanAttributes::new();
    span.set_gen_ai_prompt(120, "user", "x");
    assert_eq!(span.attributes[0].key, "gen_ai.prompt.120.role");
    assert_eq!(span.attributes[1].key, "gen_ai.prompt.120.content");
}
