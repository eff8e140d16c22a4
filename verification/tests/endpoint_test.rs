use opentelemetry_langfuse::endpoint::{build_otlp_endpoint, build_otlp_endpoint_from_env};
use opentelemetry_langfuse::environment::Environment;

#[test]
fn test_build_otlp_endpoint() {
    // Test with URL without trailing slash
    let endpoint = build_otlp_endpoint("https://cloud.langfuse.com");
    assert_eq!(endpoint, "https://cloud.langfuse.com/api/public/otel");

    // Test with URL with trailing slash
    let endpoint = build_otlp_endpoint("https://cloud.langfuse.com/");
    assert_eq!(endpoint, "https://cloud.langfuse.com/api/public/otel");

    // Test with US region URL
    let endpoint = build_otlp_endpoint("https://us.cloud.langfuse.com");
    assert_eq!(endpoint, "https://us.cloud.langfuse.com/api/public/otel");
}

#[test]
fn test_build_otlp_endpoint_from_env() {
    let mut env = Environment::empty();
    env.langfuse_host = Some("https://cloud.langfuse.com".to_string());
    let endpoint = build_otlp_endpoint_from_env(&env).unwrap();
    assert_eq!(endpoint, "https://cloud.langfuse.com/api/public/otel");

    // Test with trailing slash in env var
    env.langfuse_host = Some("https://cloud.langfuse.com/".to_string());
    let endpoint = build_otlp_endpoint_from_env(&env).unwrap();
    assert_eq!(endpoint, "https://cloud.langfuse.com/api/public/otel");
}

#[test]
fn test_default_langfuse_host() {
    let env = Environment::empty();
    let result = build_otlp_endpoint_from_env(&env);
    assert!(result.is_ok());
    assert_eq!(
        result.unwrap(),
        "https://cloud.langfuse.com/api/public/otel"
    );
}

#[test]
fn many_trailing_slashes_are_dropped() {
    assert_eq!(
        build_otlp_endpoint("https://host///"),
        "https://host/api/public/otel"
    );
    assert_eq!(build_otlp_endpoint(""), "/api/public/otel");
    assert_eq!(build_otlp_endpoint("//"), "/api/public/otel");
    assert_eq!(
        build_otlp_endpoint("https://h\u{e9}te/"),
        "https://h\u{e9}te/api/public/otel"
    );
}

#[test]
fn endpoint_precedence_in_environment() {
    let mut env = Environment::empty();
    env.otel_endpoint = Some("https://collector/base/".to_string());
    assert_eq!(
        build_otlp_endpoint_from_env(&env).unwrap(),
        "https://collector/base/v1/traces"
    );

    env.otel_traces_endpoint = Some("https://collector/traces/".to_string());
    assert_eq!(
        build_otlp_endpoint_from_env(&env).unwrap(),
        "https://collector/traces/"
    );

    env.langfuse_host = Some("https://self.hosted".to_string());
    assert_eq!(
        build_otlp_endpoint_from_env(&env).unwrap(),
        "https://self.hosted/api/public/otel"
    );
}
