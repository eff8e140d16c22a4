use opentelemetry_langfuse::builder::{
    builder, init_tracer, BatchConfig, BuilderError, LangfuseTracerBuilder, Sampling,
    DEFAULT_LANGFUSE_ENDPOINT,
};
use opentelemetry_langfuse::context::TracingContext;
use opentelemetry_langfuse::json::JsonValue;
use opentelemetry_langfuse::key_value::KeyValue;
use opentelemetry_langfuse::mapper::{GenAIAttributeMapper, PassThroughMapper};
use opentelemetry_langfuse::processor::{
    LangfuseSpanProcessor, LangfuseSpanProcessorBuilder, MappingExporter,
};
use opentelemetry_langfuse::span_ext::SpanAttributes;
use opentelemetry_langfuse::tracer;
use opentelemetry_langfuse::tracer::TracerBuilder;
use opentelemetry_langfuse::{Environment, Error};
use opentelemetry_sdk::trace::Sampler;
use std::time::Duration;

#[test]
fn test_builder_configuration() {
    let builder = LangfuseTracerBuilder::new()
        .with_endpoint("https://example.com/otel")
        .with_service_name("test-service")
        .with_service_version("1.0.0")
        .with_api_key("test-key")
        .with_session("session-123")
        .with_user("user-456")
        .with_metadata("environment", JsonValue::string("testing"))
        .with_timeout(Duration::from_secs(30));

    // Verify builder properties are set
    assert_eq!(builder.endpoint(), "https://example.com/otel");
    assert_eq!(builder.service_name(), "test-service");
    assert_eq!(builder.service_version(), &Some("1.0.0".to_string()));
    assert_eq!(builder.timeout(), Duration::from_secs(30));

    // Check that API key header was added
    assert!(builder
        .headers()
        .iter()
        .any(|(k, _)| k == "x-langfuse-api-key"));
}

#[test]
fn test_batch_config() {
    let config = BatchConfig {
        max_queue_size: 4096,
        max_export_batch_size: 1024,
        scheduled_delay: Duration::from_secs(10),
        max_export_timeout: Duration::from_secs(60),
    };

    let builder = LangfuseTracerBuilder::new().with_batch_config(config.clone());

    assert_eq!(builder.batch_config().max_queue_size, 4096);
    assert_eq!(builder.batch_config().max_export_batch_size, 1024);
}

#[test]
fn test_default_values() {
    let builder = LangfuseTracerBuilder::new();

    assert_eq!(builder.endpoint(), DEFAULT_LANGFUSE_ENDPOINT);
    assert_eq!(builder.service_name(), "langfuse-otel");
    assert!(builder.service_version().is_none());
    assert_eq!(builder.timeout(), Duration::from_secs(10));
    assert!(matches!(builder.sampler(), Sampling::AlwaysOn));
}

#[test]
fn test_processor_builder() {
    let context = TracingContext::new()
        .with_session("session-123")
        .with_user("user-456");

    let processor = LangfuseSpanProcessor::builder("exporter")
        .with_context(context)
        .with_max_queue_size(1024)
        .with_scheduled_delay(Duration::from_secs(10))
        .build();

    assert_eq!(processor.batch_config().max_queue_size, 1024);
    assert_eq!(processor.batch_config().max_export_batch_size, 512);
    assert_eq!(processor.batch_config().scheduled_delay, Duration::from_secs(10));
    assert_eq!(processor.batch_config().max_export_timeout, Duration::from_secs(30));

    let mut span = SpanAttributes::new();
    span.set_attribute(KeyValue::text("own", "x"));
    processor.on_start(&mut span);
    assert_eq!(
        span.attributes,
        vec![
            KeyValue::text("own", "x"),
            KeyValue::text("session.id", "session-123"),
            KeyValue::text("user.id", "user-456"),
        ]
    );
    assert_eq!(processor.into_exporter(), "exporter");
}

#[test]
fn test_mapping_exporter() {
    let mapper = GenAIAttributeMapper::new();
    let exporter = MappingExporter::new("inner", mapper);

    let attributes = vec![
        KeyValue::text("gen_ai.request.model", "gpt-4"),
        KeyValue::integer("gen_ai.usage.total_tokens", 3),
    ];
    assert_eq!(
        exporter.export_attributes(&attributes),
        Some(vec![
            KeyValue::text("langfuse.observation.model.name", "gpt-4"),
            KeyValue::integer("gen_ai.usage.total_tokens", 3),
        ])
    );
    let too_many = vec![
        KeyValue::integer("gen_ai.usage.prompt_tokens", i64::MAX),
        KeyValue::integer("gen_ai.usage.completion_tokens", 1),
    ];
    assert_eq!(
        MappingExporter::new("inner", PassThroughMapper).export_attributes(&too_many),
        Some(too_many.clone())
    );
    assert_eq!(*exporter.get_ref(), "inner");
}

#[test]
fn default_batch_config_values() {
    let config = BatchConfig::default();
    assert_eq!(config.max_queue_size, 2048);
    assert_eq!(config.max_export_batch_size, 512);
    assert_eq!(config.scheduled_delay, Duration::from_secs(5));
    assert_eq!(config.max_export_timeout, Duration::from_secs(30));

    let built = LangfuseSpanProcessorBuilder::new(7u8)
        .with_mapper(PassThroughMapper)
        .with_max_export_batch_size(8)
        .with_max_export_timeout(Duration::from_secs(1))
        .build();
    assert_eq!(built.batch_config().max_queue_size, 2048);
    assert_eq!(built.batch_config().max_export_batch_size, 8);
    assert_eq!(built.batch_config().scheduled_delay, Duration::from_secs(5));
    assert_eq!(built.batch_config().max_export_timeout, Duration::from_secs(1));
    assert!(built.context().to_otel_attributes().is_empty());

    let direct = LangfuseSpanProcessor::new(1u8, TracingContext::new(), PassThroughMapper);
    assert_eq!(direct.batch_config().max_queue_size, 2048);
    assert_eq!(direct.batch_config().scheduled_delay, Duration::from_secs(5));
}

#[test]
fn tracer_builder_needs_an_authorization_header() {
    let result = LangfuseTracerBuilder::new()
        .with_service_name("svc")
        .with_api_key("key")
        .build();
    match result {
        Err(BuilderError::Configuration(reason)) => assert_eq!(
            reason,
            "Missing configuration: Authorization header or Langfuse credentials"
        ),
        _ => panic!("expected a configuration error"),
    }

    let result = init_tracer("svc", "key");
    assert!(matches!(result, Err(BuilderError::Configuration(_))));
    assert_eq!(
        result.err().unwrap().message(),
        "Configuration error: Missing configuration: Authorization header or Langfuse credentials"
    );
    assert_eq!(
        BuilderError::MissingConfiguration("endpoint".to_string()).message(),
        "Missing required configuration: endpoint"
    );
}

#[test]
fn tracer_builder_settles_resource_and_exporter() {
    let setup = builder()
        .with_service_name("svc")
        .with_service_version("1.2")
        .with_header("authorization", "Bearer t")
        .with_session("s-1")
        .with_metadata("n", JsonValue::integer(4))
        .with_sampler(Sampler::AlwaysOff)
        .with_mapper(PassThroughMapper)
        .with_context(
            TracingContext::new()
                .with_name("trace")
                .with_metadata("list", JsonValue::Array(vec![JsonValue::integer(1)])),
        )
        .build();
    let setup = match setup {
        Ok(setup) => setup,
        Err(error) => panic!("{}", error.message()),
    };
    assert_eq!(
        setup.resource_attributes,
        vec![
            KeyValue::text("service.name", "svc"),
            KeyValue::text("service.version", "1.2"),
            KeyValue::text("langfuse.trace.name", "trace"),
            KeyValue::text("langfuse.trace.metadata.list", "[1]"),
        ]
    );
    assert_eq!(setup.service_name, "svc");
    assert!(matches!(setup.sampler, Sampling::Custom(Sampler::AlwaysOff)));
    assert_eq!(setup.batch_config.max_queue_size, 2048);
}

#[test]
fn tracer_installation_from_explicit_values() {
    let installation = tracer::init_tracer(
        "my-service",
        "https://cloud.langfuse.com",
        "pk-lf-1234567890",
        "sk-lf-1234567890",
    );
    let installation = match installation {
        Ok(installation) => installation,
        Err(error) => panic!("{}", error.message()),
    };
    assert_eq!(
        installation.resource_attributes,
        vec![KeyValue::text("service.name", "my-service")]
    );
    assert!(installation.detect_resources);

    let installation = TracerBuilder::new("svc")
        .with_endpoint("https://test.com")
        .with_auth_header("Basic x")
        .with_resource_attribute("a", opentelemetry_langfuse::key_value::AttributeValue::I64(1))
        .with_resource_attributes(vec![KeyValue::boolean("b", true)])
        .without_resource_detection()
        .with_timeout(Duration::from_secs(3))
        .with_header("x-h", "1")
        .with_headers(vec![("x-i".to_string(), "2".to_string())])
        .install();
    let installation = match installation {
        Ok(installation) => installation,
        Err(error) => panic!("{}", error.message()),
    };
    assert_eq!(
        installation.resource_attributes,
        vec![
            KeyValue::integer("a", 1),
            KeyValue::boolean("b", true),
            KeyValue::text("service.name", "svc"),
        ]
    );
    assert!(!installation.detect_resources);
}

#[test]
fn tracer_installation_reports_what_is_missing() {
    assert!(matches!(
        TracerBuilder::new("svc").with_auth_header("Basic x").install(),
        Err(Error::MissingConfiguration("endpoint"))
    ));
    assert!(matches!(
        TracerBuilder::new("svc").with_host("https://h").install(),
        Err(Error::MissingConfiguration("auth_header"))
    ));
    assert!(matches!(
        TracerBuilder::new("svc")
            .with_endpoint("not a uri")
            .with_credentials("a", "b")
            .install(),
        Err(Error::OtlpExporter(_))
    ));

    let mut env = Environment::empty();
    env.langfuse_host = Some("https://h".to_string());
    assert!(matches!(
        tracer::init_tracer_from_env("svc", &env),
        Err(Error::MissingEnvironmentVariable("LANGFUSE_PUBLIC_KEY"))
    ));
    env.langfuse_public_key = Some("pk".to_string());
    env.langfuse_secret_key = Some("sk".to_string());
    assert!(tracer::init_tracer_from_env("svc", &env).is_ok());
    assert!(TracerBuilder::new("svc").from_env(&env).is_ok());
}

#[test]
fn tracer_builders_hand_their_settings_to_the_exporter_builder() {
    let config = TracerBuilder::new("svc")
        .with_host("https://h/")
        .with_credentials("user", "pass")
        .with_header("authorization", "Bearer added")
        .with_header("x-a", "1")
        .with_timeout(Duration::from_secs(3))
        .exporter_builder()
        .resolve()
        .unwrap();
    assert_eq!(config.endpoint, "https://h/api/public/otel");
    assert_eq!(
        config.headers,
        vec![
            ("Authorization".to_string(), "Basic dXNlcjpwYXNz".to_string()),
            ("x-a".to_string(), "1".to_string()),
        ]
    );
    assert_eq!(config.timeout, Some(Duration::from_secs(3)));
    assert!(config.http_client.is_none());

    let config = LangfuseTracerBuilder::new()
        .with_endpoint("https://e")
        .with_header("x-a", "1")
        .with_header("AUTHORIZATION", "Bearer t")
        .with_header("x-a", "2")
        .exporter_builder()
        .resolve()
        .unwrap();
    assert_eq!(config.endpoint, "https://e");
    assert_eq!(
        config.headers,
        vec![
            ("x-a".to_string(), "2".to_string()),
            ("Authorization".to_string(), "Bearer t".to_string()),
        ]
    );
    assert_eq!(config.timeout, Some(Duration::from_secs(10)));

    assert!(matches!(
        TracerBuilder::new("svc").exporter_builder().resolve(),
        Err(Error::MissingConfiguration("endpoint"))
    ));
}

#[test]
fn tracer_builder_passes_the_exporter_error_on() {
    let result = LangfuseTracerBuilder::new()
        .with_endpoint("not a uri")
        .with_header("Authorization", "Bearer t")
        .build();
    match result {
        Err(BuilderError::Configuration(reason)) => {
            assert!(reason.starts_with("OTLP exporter error: "))
        }
        _ => panic!("expected a configuration error"),
    }
}
