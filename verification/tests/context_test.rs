use opentelemetry_langfuse::context::attributes::{
    TRACE_METADATA, TRACE_NAME, TRACE_SESSION_ID, TRACE_TAGS, TRACE_USER_ID,
};
use opentelemetry_langfuse::context::{
    LangfuseContext, LangfuseContextBuilder, SpanReference, TracingContext,
};
use opentelemetry_langfuse::json::JsonValue;
use opentelemetry_langfuse::key_value::{AttributeValue, KeyValue};

#[test]
fn test_context_attributes() {
    let mut ctx = LangfuseContext::new();
    ctx.set_session_id("session-123");
    ctx.set_user_id("user-456");

    assert_eq!(
        ctx.get_attribute(TRACE_SESSION_ID),
        Some("session-123".to_string())
    );
    assert_eq!(
        ctx.get_attribute(TRACE_USER_ID),
        Some("user-456".to_string())
    );
}

#[test]
fn test_tags() {
    let mut ctx = LangfuseContext::new();
    ctx.add_tags(vec!["tag1".to_string(), "tag2".to_string()]);

    let tags_json = ctx.get_attribute(TRACE_TAGS).unwrap();
    let tags: Vec<String> = serde_json::from_str(&tags_json).unwrap();
    assert_eq!(tags, vec!["tag1", "tag2"]);
}

#[test]
fn test_add_single_tag() {
    let mut ctx = LangfuseContext::new();
    ctx.add_tag("tag1");
    ctx.add_tag("tag2");

    let tags_json = ctx.get_attribute(TRACE_TAGS).unwrap();
    let tags: Vec<String> = serde_json::from_str(&tags_json).unwrap();
    assert_eq!(tags, vec!["tag1", "tag2"]);
}

#[test]
fn test_builder() {
    let ctx = LangfuseContextBuilder::new()
        .session_id("session-123")
        .user_id("user-456")
        .tags(vec!["tag1".to_string()])
        .trace_name("my-trace")
        .build();

    assert!(ctx.has_attribute(TRACE_SESSION_ID));
    assert!(ctx.has_attribute(TRACE_USER_ID));
    assert!(ctx.has_attribute(TRACE_TAGS));
    assert!(ctx.has_attribute(TRACE_NAME));
}

#[test]
fn test_clear() {
    let mut ctx = LangfuseContext::new();
    ctx.set_session_id("session-123");
    assert!(ctx.has_attribute(TRACE_SESSION_ID));

    ctx.clear();
    assert!(!ctx.has_attribute(TRACE_SESSION_ID));
}

#[test]
fn add_tag_after_tags_appends() {
    let mut ctx = LangfuseContext::new();
    ctx.add_tags(vec!["a".to_string()]);
    ctx.add_tag("b\"c");
    assert_eq!(
        ctx.get_attribute(TRACE_TAGS),
        Some("[\"a\",\"b\\\"c\"]".to_string())
    );
}

#[test]
fn add_tag_replaces_text_that_is_no_tag_list() {
    let mut ctx = LangfuseContext::new();
    ctx.set_attribute(TRACE_TAGS, "not json");
    ctx.add_tag("only");
    assert_eq!(ctx.get_attribute(TRACE_TAGS), Some("[\"only\"]".to_string()));

    ctx.set_attribute(TRACE_TAGS, "[1,2]");
    ctx.add_tag("again");
    assert_eq!(ctx.get_attribute(TRACE_TAGS), Some("[\"again\"]".to_string()));
}

#[test]
fn first_tag_is_written_as_given() {
    let mut ctx = LangfuseContext::new();
    ctx.add_tag("x");
    assert_eq!(ctx.get_attribute(TRACE_TAGS), Some("[\"x\"]".to_string()));
}

#[test]
fn set_attribute_replaces_and_keeps_place() {
    let mut ctx = LangfuseContext::new();
    ctx.set_attribute("a", "1");
    ctx.set_attribute("b", "2");
    ctx.set_attribute("a", "3");
    let attributes = ctx.get_attributes();
    assert_eq!(attributes.len(), 2);
    assert_eq!(attributes[0].key, "a");
    assert!(matches!(&attributes[0].value, AttributeValue::String(s) if s == "3"));
    assert_eq!(attributes[1].key, "b");
    assert!(matches!(&attributes[1].value, AttributeValue::String(s) if s == "2"));
    assert_eq!(ctx.get_attribute("missing"), None);
}

#[test]
fn metadata_is_stored_as_json_text() {
    let metadata = JsonValue::Object(vec![
        ("b".to_string(), JsonValue::integer(2)),
        ("a".to_string(), JsonValue::string("x")),
    ]);
    let ctx = LangfuseContextBuilder::new().metadata(&metadata).build();
    assert_eq!(
        ctx.get_attribute(TRACE_METADATA),
        Some("{\"a\":\"x\",\"b\":2}".to_string())
    );
}

#[test]
fn setters_can_be_chained() {
    let mut ctx = LangfuseContext::new();
    ctx.set_session_id("s")
        .set_user_id("u")
        .set_trace_name("n")
        .set_attribute("k", "v")
        .add_tag("t")
        .set_metadata(&JsonValue::Null);
    assert_eq!(ctx.get_attribute(TRACE_SESSION_ID), Some("s".to_string()));
    assert_eq!(ctx.get_attribute(TRACE_USER_ID), Some("u".to_string()));
    assert_eq!(ctx.get_attribute(TRACE_NAME), Some("n".to_string()));
    assert_eq!(ctx.get_attribute("k"), Some("v".to_string()));
    assert_eq!(ctx.get_attribute(TRACE_TAGS), Some("[\"t\"]".to_string()));
    assert_eq!(ctx.get_attribute(TRACE_METADATA), Some("null".to_string()));
    assert_eq!(ctx.get_attributes().len(), 6);
}

#[test]
fn default_context_is_empty() {
    let ctx = LangfuseContext::default();
    assert!(ctx.get_attributes().is_empty());
    let built = LangfuseContextBuilder::default().build();
    assert!(built.get_attributes().is_empty());
}

#[test]
fn child_context_is_independent_of_its_parent() {
    let parent = TracingContext::new()
        .with_attribute("a", JsonValue::integer(1))
        .with_parent_span(SpanReference { trace_id: 7, span_id: 9 });
    let mut child = parent.child();
    child.set_attribute("b", JsonValue::integer(2));

    assert_eq!(
        child.to_otel_attributes(),
        vec![KeyValue::integer("a", 1), KeyValue::integer("b", 2)]
    );
    assert_eq!(parent.to_otel_attributes(), vec![KeyValue::integer("a", 1)]);
    assert_eq!(child.get_attribute("a"), Some(JsonValue::integer(1)));
    assert_eq!(child.get_attribute("b"), Some(JsonValue::integer(2)));
    assert_eq!(parent.get_attribute("b"), None);
    assert!(!parent.has_attribute("b"));
    assert!(child.has_attribute("b"));
    assert_eq!(
        child.parent_span(),
        Some(SpanReference { trace_id: 7, span_id: 9 })
    );

    let mut grandchild = child.clone();
    grandchild.set_attribute("a", JsonValue::string("changed"));
    assert_eq!(child.get_attribute("a"), Some(JsonValue::integer(1)));
    assert_eq!(
        grandchild.to_otel_attributes(),
        vec![KeyValue::text("a", "changed"), KeyValue::integer("b", 2)]
    );
    assert!(TracingContext::default().to_otel_attributes().is_empty());
    assert_eq!(TracingContext::default().parent_span(), None);
}

#[test]
fn tracing_context_keys() {
    let context = TracingContext::new()
        .with_session("s")
        .with_user("u")
        .with_name("n")
        .with_metadata("m", JsonValue::Bool(true))
        .with_metadata("o", JsonValue::Object(Vec::new()));
    assert_eq!(
        context.to_otel_attributes(),
        vec![
            KeyValue::text("session.id", "s"),
            KeyValue::text("user.id", "u"),
            KeyValue::text("langfuse.trace.name", "n"),
            KeyValue::boolean("langfuse.trace.metadata.m", true),
            KeyValue::text("langfuse.trace.metadata.o", "{}"),
        ]
    );
}
