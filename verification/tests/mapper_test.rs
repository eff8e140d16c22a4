use opentelemetry_langfuse::attributes::{LangfuseAttributes, OpenTelemetryGenAIAttributes};
use opentelemetry_langfuse::key_value::{ArrayValue, AttributeValue, Float, KeyValue};
use opentelemetry_langfuse::mapper::{
    AttributeMapper, Expansion, GenAIAttributeMapper, MappingRule, PassThroughMapper, Transformer,
};

fn float(value: f64) -> AttributeValue {
    let text = serde_json::Number::from_f64(value).unwrap().to_string();
    AttributeValue::F64(Float::Finite(text))
}

fn text_of(attributes: &[KeyValue], key: &str) -> Option<String> {
    attributes.iter().find(|kv| kv.key == key).and_then(|kv| match &kv.value {
        AttributeValue::String(s) => Some(s.clone()),
        _ => None,
    })
}

#[test]
fn test_bidirectional_mapping() {
    let mapper = GenAIAttributeMapper::new();

    // Test OTel to Langfuse
    let otel_attrs = vec![
        KeyValue::text(OpenTelemetryGenAIAttributes::REQUEST_MODEL, "gpt-4"),
        KeyValue::text("user.id", "user-123"),
    ];

    let langfuse_attrs = mapper.map_to_langfuse(&otel_attrs);

    assert!(langfuse_attrs
        .iter()
        .any(|kv| kv.key.as_str() == LangfuseAttributes::OBSERVATION_MODEL));
    assert!(langfuse_attrs
        .iter()
        .any(|kv| kv.key.as_str() == LangfuseAttributes::TRACE_USER_ID));

    // Test Langfuse to OTel (reverse)
    let otel_attrs_back = mapper.map_to_otel(&langfuse_attrs);

    assert!(otel_attrs_back
        .iter()
        .any(|kv| kv.key.as_str() == OpenTelemetryGenAIAttributes::REQUEST_MODEL));
}

#[test]
fn test_token_usage_mapping() {
    let mapper = GenAIAttributeMapper::new();

    let otel_attrs = vec![
        KeyValue::integer(OpenTelemetryGenAIAttributes::USAGE_PROMPT_TOKENS, 100i64),
        KeyValue::integer(
            OpenTelemetryGenAIAttributes::USAGE_COMPLETION_TOKENS,
            200i64,
        ),
    ];

    let langfuse_attrs = mapper.map_to_langfuse(&otel_attrs);

    assert!(langfuse_attrs
        .iter()
        .any(|kv| kv.key.as_str() == LangfuseAttributes::OBSERVATION_USAGE_INPUT));
    assert!(langfuse_attrs
        .iter()
        .any(|kv| kv.key.as_str() == LangfuseAttributes::OBSERVATION_USAGE_OUTPUT));
}

#[test]
fn test_model_parameters_aggregation() {
    let mapper = GenAIAttributeMapper::new();

    let otel_attrs = vec![
        KeyValue::new(OpenTelemetryGenAIAttributes::REQUEST_TEMPERATURE, float(0.7)),
        KeyValue::integer(OpenTelemetryGenAIAttributes::REQUEST_MAX_TOKENS, 1000i64),
        KeyValue::new(OpenTelemetryGenAIAttributes::REQUEST_TOP_P, float(0.9)),
    ];

    let langfuse_attrs = mapper.map_to_langfuse(&otel_attrs);

    // Should have model parameters aggregated
    assert!(langfuse_attrs
        .iter()
        .any(|kv| kv.key.as_str() == LangfuseAttributes::OBSERVATION_MODEL_PARAMETERS));
}

#[test]
fn test_enrich_attributes() {
    let mapper = GenAIAttributeMapper::new();

    let attrs = vec![
        KeyValue::integer(OpenTelemetryGenAIAttributes::USAGE_PROMPT_TOKENS, 100i64),
        KeyValue::integer(
            OpenTelemetryGenAIAttributes::USAGE_COMPLETION_TOKENS,
            200i64,
        ),
    ];

    let enriched = mapper.enrich_attributes(&attrs);

    // Should have added total tokens
    assert!(enriched
        .iter()
        .any(|kv| kv.key.as_str() == OpenTelemetryGenAIAttributes::USAGE_TOTAL_TOKENS));
    assert!(enriched
        .iter()
        .any(|kv| kv.key.as_str() == LangfuseAttributes::OBSERVATION_USAGE_TOTAL));

    // Check the value
    let total = enriched
        .iter()
        .find(|kv| kv.key.as_str() == OpenTelemetryGenAIAttributes::USAGE_TOTAL_TOKENS)
        .unwrap();

    if let AttributeValue::I64(v) = total.value {
        assert_eq!(v, 300);
    } else {
        panic!("Expected I64 value");
    }
}

#[test]
fn test_pass_through_mapper() {
    let mapper = PassThroughMapper;

    let attrs = vec![
        KeyValue::text("custom.attribute", "value"),
        KeyValue::integer("another.attribute", 42i64),
    ];

    let mapped = mapper.map_to_langfuse(&attrs);
    assert_eq!(mapped, attrs);

    let mapped_back = mapper.map_to_otel(&mapped);
    assert_eq!(mapped_back, attrs);
}

#[test]
fn enrichment_total_under_both_keys() {
    let mapper = GenAIAttributeMapper::new();
    let attrs = vec![
        KeyValue::integer("gen_ai.usage.prompt_tokens", 100),
        KeyValue::integer("gen_ai.usage.completion_tokens", 200),
    ];
    let enriched = mapper.enrich_attributes(&attrs);
    assert_eq!(
        enriched,
        vec![
            KeyValue::integer("gen_ai.usage.prompt_tokens", 100),
            KeyValue::integer("gen_ai.usage.completion_tokens", 200),
            KeyValue::integer("gen_ai.usage.total_tokens", 300),
            KeyValue::integer("langfuse.observation.usage.total", 300),
        ]
    );
}

#[test]
fn enrichment_needs_both_counts_as_integers() {
    let mapper = GenAIAttributeMapper::new();
    let only_prompt = vec![KeyValue::integer("gen_ai.usage.prompt_tokens", 5)];
    assert_eq!(mapper.enrich_attributes(&only_prompt), only_prompt);

    let text_count = vec![
        KeyValue::integer("gen_ai.usage.prompt_tokens", 5),
        KeyValue::text("gen_ai.usage.completion_tokens", "7"),
    ];
    assert_eq!(mapper.enrich_attributes(&text_count), text_count);

    let empty: Vec<KeyValue> = Vec::new();
    assert!(mapper.enrich_attributes(&empty).is_empty());
    assert!(PassThroughMapper.enrich_attributes(&only_prompt) == only_prompt);
}

#[test]
fn enrichment_takes_the_last_count() {
    let mapper = GenAIAttributeMapper::new();
    let attrs = vec![
        KeyValue::integer("gen_ai.usage.prompt_tokens", 1),
        KeyValue::integer("gen_ai.usage.completion_tokens", 2),
        KeyValue::integer("gen_ai.usage.prompt_tokens", 10),
        KeyValue::text("gen_ai.usage.prompt_tokens", "ignored"),
    ];
    let enriched = mapper.enrich_attributes(&attrs);
    assert_eq!(enriched.len(), 6);
    assert_eq!(enriched[4], KeyValue::integer("gen_ai.usage.total_tokens", 12));
    assert_eq!(
        enriched[5],
        KeyValue::integer("langfuse.observation.usage.total", 12)
    );
}

#[test]
fn model_parameters_become_one_json_object() {
    let mapper = GenAIAttributeMapper::new();
    let otel_attrs = vec![
        KeyValue::new("gen_ai.request.temperature", float(0.7)),
        KeyValue::integer("gen_ai.request.max_tokens", 1000),
        KeyValue::text("gen_ai.system", "openai"),
        KeyValue::new("gen_ai.request.top_p", float(0.9)),
        KeyValue::integer("gen_ai.request.max_tokens", 2000),
        KeyValue::new("gen_ai.request.broken", AttributeValue::F64(Float::NaN)),
        KeyValue::boolean("gen_ai.request.stream", true),
    ];
    let mapped = mapper.map_to_langfuse(&otel_attrs);
    assert_eq!(
        mapped,
        vec![
            KeyValue::text("gen_ai.system", "openai"),
            KeyValue::text(
                "langfuse.observation.model.parameters",
                "{\"broken\":0,\"max_tokens\":2000,\"stream\":true,\"temperature\":0.7,\"top_p\":0.9}"
            ),
        ]
    );
}

#[test]
fn model_parameters_expand_back_into_request_attributes() {
    let mapper = GenAIAttributeMapper::new();
    let langfuse_attrs = vec![KeyValue::text(
        "langfuse.observation.model.parameters",
        "{\"temperature\":0.7,\"max_tokens\":1000,\"stop\":[\"a\",1],\"stream\":false,\"name\":\"x\",\"none\":null}",
    )];
    let mapped = mapper.map_to_otel(&langfuse_attrs);
    assert_eq!(
        mapped,
        vec![
            KeyValue::integer("gen_ai.request.max_tokens", 1000),
            KeyValue::text("gen_ai.request.name", "x"),
            KeyValue::text("gen_ai.request.none", "null"),
            KeyValue::text("gen_ai.request.stop", "\"a\",1"),
            KeyValue::boolean("gen_ai.request.stream", false),
            KeyValue::new("gen_ai.request.temperature", float(0.7)),
        ]
    );
}

#[test]
fn malformed_model_parameters_are_skipped() {
    let mapper = GenAIAttributeMapper::new();
    let langfuse_attrs = vec![
        KeyValue::text("langfuse.observation.model.parameters", "{not json"),
        KeyValue::text("langfuse.observation.model.parameters", "[1,2]"),
        KeyValue::integer("langfuse.observation.model.parameters", 3),
        KeyValue::text("kept", "yes"),
    ];
    let mapped = mapper.map_to_otel(&langfuse_attrs);
    assert_eq!(mapped, vec![KeyValue::text("kept", "yes")]);
}

#[test]
fn round_trip_returns_bidirectional_keys() {
    let mapper = GenAIAttributeMapper::new();
    let otel_attrs = vec![
        KeyValue::text("gen_ai.request.model", "gpt-4"),
        KeyValue::text("user.id", "user-123"),
        KeyValue::integer("session.id", 7),
    ];
    let there = mapper.map_to_langfuse(&otel_attrs);
    assert_eq!(
        there,
        vec![
            KeyValue::text("langfuse.observation.model.name", "gpt-4"),
            KeyValue::text("user.id", "user-123"),
            KeyValue::integer("session.id", 7),
        ]
    );
    assert_eq!(mapper.map_to_otel(&there), otel_attrs);
}

#[test]
fn token_counts_map_both_ways() {
    let mapper = GenAIAttributeMapper::new();
    let otel_attrs = vec![
        KeyValue::integer("gen_ai.usage.prompt_tokens", 100),
        KeyValue::integer("gen_ai.usage.completion_tokens", 200),
    ];
    let there = mapper.map_to_langfuse(&otel_attrs);
    assert_eq!(
        there,
        vec![
            KeyValue::integer("langfuse.observation.usage.input", 100),
            KeyValue::integer("langfuse.observation.usage.output", 200),
        ]
    );
    assert_eq!(mapper.map_to_otel(&there), otel_attrs);
}

#[test]
fn prompts_and_completions_map_by_content() {
    let mapper = GenAIAttributeMapper::new();
    let otel_attrs = vec![
        KeyValue::text("gen_ai.prompt.0.role", "user"),
        KeyValue::text("gen_ai.prompt.0.content", "Hello"),
        KeyValue::text("gen_ai.completion.0.role", "assistant"),
        KeyValue::text("gen_ai.completion.0.content", "Hi"),
        KeyValue::text("gen_ai.prompt_json", "[]"),
    ];
    assert_eq!(
        mapper.map_to_langfuse(&otel_attrs),
        vec![
            KeyValue::text("gen_ai.prompt.0.role", "user"),
            KeyValue::text("langfuse.observation.input", "Hello"),
            KeyValue::text("gen_ai.completion.0.role", "assistant"),
            KeyValue::text("langfuse.observation.output", "Hi"),
            KeyValue::text("gen_ai.prompt_json", "[]"),
        ]
    );
}

#[test]
fn other_parts_of_a_prompt_pass_through() {
    let mapper = GenAIAttributeMapper::new();
    let role = vec![KeyValue::text("gen_ai.prompt.0.role", "user")];
    assert_eq!(mapper.map_to_langfuse(&role), role);
    let finish = vec![KeyValue::text("gen_ai.completion.0.finish_reason", "stop")];
    assert_eq!(mapper.map_to_langfuse(&finish), finish);
}

#[test]
fn arrays_become_joined_text_under_a_rule() {
    let mapper = GenAIAttributeMapper::new();
    let otel_attrs = vec![KeyValue::new(
        "user.id",
        AttributeValue::Array(ArrayValue::String(vec!["a".to_string(), "b".to_string()])),
    )];
    assert_eq!(
        mapper.map_to_langfuse(&otel_attrs),
        vec![KeyValue::text("user.id", "\"a\",\"b\"")]
    );
    let numbers = vec![KeyValue::new(
        "session.id",
        AttributeValue::Array(ArrayValue::I64(vec![1, -2])),
    )];
    assert_eq!(
        mapper.map_to_langfuse(&numbers),
        vec![KeyValue::text("session.id", "1,-2")]
    );
    let passed = vec![KeyValue::new(
        "other",
        AttributeValue::Array(ArrayValue::Bool(vec![true])),
    )];
    assert_eq!(mapper.map_to_langfuse(&passed), passed);
}

#[test]
fn model_parameters_rule_drops_its_own_key() {
    let mapper = GenAIAttributeMapper::new();
    let otel_attrs = vec![KeyValue::text("model_parameters", "x")];
    assert!(mapper.map_to_langfuse(&otel_attrs).is_empty());
}

#[test]
fn rules_can_be_added_and_removed() {
    let mut mapper = GenAIAttributeMapper::default();
    mapper.add_rule(
        "http.method".to_string(),
        MappingRule::OneWay {
            source_key: "http.method".to_string(),
            target_key: "langfuse.method".to_string(),
        },
    );
    mapper.add_rule(
        "gen_ai.request.temperature".to_string(),
        MappingRule::Complex {
            source_key: "gen_ai.request.*".to_string(),
            mapper: Expansion::ModelParameters,
        },
    );
    let otel_attrs = vec![
        KeyValue::text("http.method", "GET"),
        KeyValue::integer("gen_ai.request.temperature", 1),
    ];
    assert_eq!(
        mapper.map_to_langfuse(&otel_attrs),
        vec![
            KeyValue::text("langfuse.method", "GET"),
            KeyValue::integer("langfuse.observation.model.parameters", 1),
        ]
    );

    let removed = mapper.remove_rule("http.method");
    assert_eq!(
        removed,
        Some(MappingRule::OneWay {
            source_key: "http.method".to_string(),
            target_key: "langfuse.method".to_string(),
        })
    );
    assert_eq!(mapper.remove_rule("http.method"), None);
    assert_eq!(
        mapper.map_to_langfuse(&[KeyValue::text("http.method", "GET")]),
        vec![KeyValue::text("http.method", "GET")]
    );

    mapper.add_rule(
        "user.id".to_string(),
        MappingRule::Transform {
            source_key: "user.id".to_string(),
            target_key: "langfuse.user".to_string(),
            transformer: Transformer::Identity,
        },
    );
    assert_eq!(
        mapper.map_to_langfuse(&[KeyValue::text("user.id", "u")]),
        vec![KeyValue::text("langfuse.user", "u")]
    );
    assert_eq!(
        mapper.map_to_otel(&[KeyValue::text("user.id", "u")]),
        vec![KeyValue::text("user.id", "u")]
    );
}

#[test]
fn enrichment_is_possible_where_the_total_fits() {
    let mapper = GenAIAttributeMapper::new();
    let fits = vec![
        KeyValue::integer("gen_ai.usage.prompt_tokens", i64::MAX - 1),
        KeyValue::integer("gen_ai.usage.completion_tokens", 1),
    ];
    assert!(mapper.can_enrich_attributes(&fits));
    assert_eq!(
        mapper.enrich_attributes(&fits)[2],
        KeyValue::integer("gen_ai.usage.total_tokens", i64::MAX)
    );
    let too_large = vec![
        KeyValue::integer("gen_ai.usage.prompt_tokens", i64::MAX),
        KeyValue::integer("gen_ai.usage.completion_tokens", 1),
    ];
    assert!(!mapper.can_enrich_attributes(&too_large));
    let too_small = vec![
        KeyValue::integer("gen_ai.usage.prompt_tokens", i64::MIN),
        KeyValue::integer("gen_ai.usage.completion_tokens", -1),
    ];
    assert!(!mapper.can_enrich_attributes(&too_small));
    let negative = vec![
        KeyValue::integer("gen_ai.usage.prompt_tokens", i64::MIN),
        KeyValue::integer("gen_ai.usage.completion_tokens", 5),
    ];
    assert!(mapper.can_enrich_attributes(&negative));
    assert!(mapper.can_enrich_attributes(&[KeyValue::integer("gen_ai.usage.prompt_tokens", i64::MAX)]));
    assert!(PassThroughMapper.can_enrich_attributes(&too_large));
}
