use opentelemetry_langfuse::key_value::KeyValue;
use opentelemetry_langfuse::span_ext::SpanAttributes;
use opentelemetry_langfuse::span_storage::{
    active_span_count, create_and_store_span, end_span, generate_span_id, has_span, stored_span,
    SpanRegistry,
};

fn span_with(key: &str, value: &str) -> SpanAttributes {
    let mut span = SpanAttributes::new();
    span.set_attribute(KeyValue::text(key, value));
    span
}

#[test]
fn test_span_lifecycle() {
    let mut registry = SpanRegistry::new();

    // Create and store span
    let span_id = create_and_store_span(&mut registry, span_with("test", "value"), 1_700_000_000_000);

    // Verify span exists
    assert!(has_span(&registry, &span_id));
    assert_eq!(active_span_count(&registry), 1);

    // Look the span up
    assert_eq!(
        stored_span(&registry, &span_id).map(|span| span.attributes.len()),
        Some(1)
    );

    // End span
    let ended = end_span(&mut registry, &span_id);
    assert_eq!(ended, Some(span_with("test", "value")));

    // Verify span is removed
    assert!(!has_span(&registry, &span_id));
    assert_eq!(active_span_count(&registry), 0);
}

#[test]
fn test_multiple_spans() {
    let mut registry = SpanRegistry::new();

    let span_id1 = create_and_store_span(&mut registry, SpanAttributes::new(), 1);
    let span_id2 = create_and_store_span(&mut registry, SpanAttributes::new(), 2);

    assert_eq!(active_span_count(&registry), 2);
    assert!(has_span(&registry, &span_id1));
    assert!(has_span(&registry, &span_id2));

    end_span(&mut registry, &span_id1);
    assert_eq!(active_span_count(&registry), 1);
    assert!(!has_span(&registry, &span_id1));
    assert!(has_span(&registry, &span_id2));

    end_span(&mut registry, &span_id2);
    assert_eq!(active_span_count(&registry), 0);
}

#[test]
fn test_nonexistent_span() {
    let mut registry: SpanRegistry<SpanAttributes> = SpanRegistry::new();
    // These should not panic
    assert!(stored_span(&registry, "nonexistent").is_none());
    assert!(end_span(&mut registry, "nonexistent").is_none());
    assert!(!has_span(&registry, "nonexistent"));
}

#[test]
fn span_id_is_the_time_in_decimal() {
    assert_eq!(generate_span_id(0), "span-0");
    assert_eq!(generate_span_id(9), "span-9");
    assert_eq!(generate_span_id(10), "span-10");
    assert_eq!(
        generate_span_id(1_725_000_000_123_456_789),
        "span-1725000000123456789"
    );
    assert_eq!(
        generate_span_id(u128::MAX),
        "span-340282366920938463463374607431768211455"
    );
}

#[test]
fn span_stored_at_the_same_time_replaces() {
    let mut registry = SpanRegistry::new();
    let first = create_and_store_span(&mut registry, span_with("n", "1"), 5);
    let second = create_and_store_span(&mut registry, span_with("n", "2"), 5);
    assert_eq!(first, second);
    assert_eq!(active_span_count(&registry), 1);
    assert_eq!(end_span(&mut registry, "span-5"), Some(span_with("n", "2")));
}
