use opentelemetry_langfuse::attributes::{
    LangfuseAttributes, ObservationAttributesBuilder, TraceAttributesBuilder,
};
use opentelemetry_langfuse::json::JsonValue;
use opentelemetry_langfuse::key_value::{AttributeValue, Float, KeyValue};

#[test]
fn test_trace_attributes_builder() {
    let attributes = TraceAttributesBuilder::new()
        .name("test-trace")
        .user_id("user-123")
        .session_id("session-456")
        .tags(vec!["tag1".to_string(), "tag2".to_string()])
        .public(true)
        .build();

    assert_eq!(attributes.len(), 5);
    assert!(attributes
        .iter()
        .any(|kv| kv.key.as_str() == LangfuseAttributes::TRACE_NAME));
    assert!(attributes
        .iter()
        .any(|kv| kv.key.as_str() == LangfuseAttributes::TRACE_USER_ID));
}

#[test]
fn test_observation_attributes_builder() {
    let attributes = ObservationAttributesBuilder::new()
        .observation_type("generation")
        .model("gpt-4")
        .usage(100, 200)
        .build();

    assert_eq!(attributes.len(), 5); // type, model, input tokens, output tokens, total tokens
    assert!(attributes
        .iter()
        .any(|kv| kv.key.as_str() == LangfuseAttributes::OBSERVATION_TYPE));
    assert!(attributes
        .iter()
        .any(|kv| kv.key.as_str() == LangfuseAttributes::OBSERVATION_MODEL));
}

#[test]
fn trace_attributes_are_built_in_order_with_their_types() {
    let attributes = TraceAttributesBuilder::default()
        .name("first")
        .tags(vec!["a".to_string(), "b".to_string()])
        .public(false)
        .metadata("env", JsonValue::string("prod"))
        .metadata("n", JsonValue::decimal("1.5"))
        .input(JsonValue::Object(vec![("q".to_string(), JsonValue::integer(1))]))
        .output(JsonValue::Null)
        .name("second")
        .build();
    assert_eq!(
        attributes,
        vec![
            KeyValue::text("langfuse.trace.name", "second"),
            KeyValue::text("langfuse.trace.tags", "[\"a\",\"b\"]"),
            KeyValue::boolean("langfuse.trace.public", false),
            KeyValue::text("langfuse.trace.metadata.env", "prod"),
            KeyValue::new(
                "langfuse.trace.metadata.n",
                AttributeValue::F64(Float::Finite("1.5".to_string()))
            ),
            KeyValue::text("langfuse.trace.input", "{\"q\":1}"),
            KeyValue::text("langfuse.trace.output", "null"),
        ]
    );
}

#[test]
fn observation_usage_states_the_total() {
    let builder = ObservationAttributesBuilder::default()
        .usage(100, 200)
        .model_parameters(JsonValue::Array(vec![JsonValue::integer(1)]))
        .input(JsonValue::string("in"))
        .output(JsonValue::Bool(true))
        .metadata("k", JsonValue::integer(-3));
    let copy = builder.clone();
    let attributes = builder.build();
    assert_eq!(
        attributes,
        vec![
            KeyValue::integer("langfuse.observation.usage.input", 100),
            KeyValue::integer("langfuse.observation.usage.output", 200),
            KeyValue::integer("langfuse.observation.usage.total", 300),
            KeyValue::text("langfuse.observation.model.parameters", "[1]"),
            KeyValue::text("langfuse.observation.input", "in"),
            KeyValue::boolean("langfuse.observation.output", true),
            KeyValue::integer("langfuse.observation.metadata.k", -3),
        ]
    );
    assert_eq!(copy.build(), attributes);
    assert!(TraceAttributesBuilder::new().clone().build().is_empty());
}
