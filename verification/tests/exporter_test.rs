use opentelemetry_langfuse::environment::Environment;
use opentelemetry_langfuse::error::Error;
use opentelemetry_langfuse::exporter::{exporter, ExporterBuilder};
use opentelemetry_langfuse::headers::{normalize_headers, parse_headers, resolve_headers};
use std::time::Duration;

fn pair(name: &str, value: &str) -> (String, String) {
    (name.to_string(), value.to_string())
}

#[test]
fn test_exporter_from_env_uses_langfuse_variables() {
    let mut env = Environment::empty();
    env.langfuse_host = Some("https://test.langfuse.com".to_string());
    env.langfuse_public_key = Some("pk-test".to_string());
    env.langfuse_secret_key = Some("sk-test".to_string());

    let result = ExporterBuilder::from_env(&env).and_then(|b| b.build());
    assert!(result.is_ok());
}

#[test]
fn test_exporter_from_env_missing_credentials() {
    let mut env = Environment::empty();
    env.langfuse_host = Some("https://test.langfuse.com".to_string());

    let result = ExporterBuilder::from_env(&env);
    assert!(matches!(result, Err(Error::MissingEnvironmentVariable(_))));
}

#[test]
fn test_case_insensitive_authorization_header() {
    // Test with lowercase "authorization"
    let result = ExporterBuilder::new()
        .with_endpoint("https://test.com")
        .with_header("authorization", "Bearer test-token")
        .build();

    // Should succeed without needing auth_header since we have authorization
    assert!(result.is_ok());

    // Test with mixed case
    let result = ExporterBuilder::new()
        .with_endpoint("https://test.com")
        .with_header("AUTHORIZATION", "Bearer test-token")
        .build();

    assert!(result.is_ok());

    // Test that auth_header takes precedence over header from with_header
    let result = ExporterBuilder::new()
        .with_endpoint("https://test.com")
        .with_header("authorization", "Bearer from-header")
        .with_auth_header("Bearer from-auth")
        .build();

    assert!(result.is_ok());

    // Test with basic_auth taking precedence
    let result = ExporterBuilder::new()
        .with_endpoint("https://test.com")
        .with_header("Authorization", "Bearer from-header")
        .with_basic_auth("user", "pass")
        .build();

    assert!(result.is_ok());
}

#[test]
fn authorization_is_normalized_and_set_value_wins() {
    let config = ExporterBuilder::new()
        .with_endpoint("https://test.com")
        .with_header("x-trace", "1")
        .with_header("authorization", "Bearer test-token")
        .resolve()
        .unwrap();
    assert_eq!(config.endpoint, "https://test.com");
    assert_eq!(
        config.headers,
        vec![pair("x-trace", "1"), pair("Authorization", "Bearer test-token")]
    );
    assert_eq!(config.timeout, None);
    assert!(config.http_client.is_none());

    let config = ExporterBuilder::new()
        .with_endpoint("https://test.com")
        .with_header("AUTHORIZATION", "Bearer from-header")
        .with_header("Authorization", "Bearer second")
        .with_auth_header("Bearer from-auth")
        .with_timeout(Duration::from_secs(30))
        .resolve()
        .unwrap();
    assert_eq!(config.headers, vec![pair("Authorization", "Bearer from-auth")]);
    assert_eq!(config.timeout, Some(Duration::from_secs(30)));

    let config = ExporterBuilder::new()
        .with_host("https://cloud.langfuse.com/")
        .with_header("Authorization", "Bearer from-header")
        .with_basic_auth("user", "pass")
        .resolve()
        .unwrap();
    assert_eq!(config.endpoint, "https://cloud.langfuse.com/api/public/otel");
    assert_eq!(config.headers, vec![pair("Authorization", "Basic dXNlcjpwYXNz")]);
}

#[test]
fn later_authorization_header_stays() {
    let headers = vec![
        pair("authorization", "first"),
        pair("X-Other", "o"),
        pair("AUTHORIZATION", "second"),
    ];
    assert_eq!(
        normalize_headers(&headers),
        vec![pair("Authorization", "second"), pair("X-Other", "o")]
    );
    assert_eq!(
        resolve_headers(&headers, None),
        Some(vec![pair("Authorization", "second"), pair("X-Other", "o")])
    );
    assert_eq!(
        resolve_headers(&headers, Some("set".to_string())),
        Some(vec![pair("Authorization", "set"), pair("X-Other", "o")])
    );
    assert_eq!(resolve_headers(&vec![pair("X-Other", "o")], None), None);
    assert_eq!(
        resolve_headers(&Vec::new(), Some("set".to_string())),
        Some(vec![pair("Authorization", "set")])
    );
}

#[test]
fn missing_configuration_is_reported() {
    let result = ExporterBuilder::new().with_auth_header("Basic x").build();
    assert!(matches!(result, Err(Error::MissingConfiguration("endpoint"))));

    let result = ExporterBuilder::new().with_endpoint("https://test.com").build();
    assert!(matches!(
        result,
        Err(Error::MissingConfiguration("Authorization header or Langfuse credentials"))
    ));

    let result = ExporterBuilder::default().resolve();
    assert!(matches!(result, Err(Error::MissingConfiguration("endpoint"))));
}

#[test]
fn header_text_is_parsed() {
    assert_eq!(
        parse_headers("Authorization=Basic dGVzdDp0ZXN0"),
        vec![pair("Authorization", "Basic dGVzdDp0ZXN0")]
    );
    assert_eq!(
        parse_headers(" k1 = v1 ,k2=v2,, bad , =x, y= ,k3=a=b=="),
        vec![pair("k1", "v1"), pair("k2", "v2"), pair("k3", "a=b==")]
    );
    assert_eq!(parse_headers(""), Vec::new());
    assert_eq!(parse_headers(","), Vec::new());
    assert_eq!(parse_headers("a=1,"), vec![pair("a", "1")]);
}

#[test]
fn langfuse_variables_take_precedence_over_otel_variables() {
    let mut env = Environment::empty();
    env.langfuse_host = Some("https://self.hosted/".to_string());
    env.langfuse_public_key = Some("user".to_string());
    env.langfuse_secret_key = Some("pass".to_string());
    env.otel_traces_endpoint = Some("https://collector/traces".to_string());
    env.otel_endpoint = Some("https://collector".to_string());
    env.otel_traces_headers = Some("authorization=Bearer traces,x-a=1".to_string());
    env.otel_headers = Some("Authorization=Bearer general,x-b=2".to_string());

    let config = ExporterBuilder::from_env(&env).unwrap().resolve().unwrap();
    assert_eq!(config.endpoint, "https://self.hosted/api/public/otel");
    assert_eq!(
        config.headers,
        vec![pair("Authorization", "Basic dXNlcjpwYXNz"), pair("x-a", "1")]
    );
}

#[test]
fn otel_headers_give_the_authorization_without_langfuse_keys() {
    let mut env = Environment::empty();
    env.otel_traces_endpoint = Some("https://cloud.langfuse.com/api/public/otel".to_string());
    env.otel_headers = Some("Authorization=Basic dGVzdDp0ZXN0".to_string());
    let config = ExporterBuilder::from_env(&env).unwrap().resolve().unwrap();
    assert_eq!(config.endpoint, "https://cloud.langfuse.com/api/public/otel");
    assert_eq!(config.headers, vec![pair("Authorization", "Basic dGVzdDp0ZXN0")]);

    env.langfuse_public_key = Some("pk".to_string());
    env.otel_headers = Some("x-only=1".to_string());
    assert!(matches!(
        ExporterBuilder::from_env(&env),
        Err(Error::MissingEnvironmentVariable("LANGFUSE_SECRET_KEY"))
    ));

    env.otel_traces_headers = Some("x-none=1".to_string());
    env.otel_headers = Some("Authorization=Basic dGVzdDp0ZXN0".to_string());
    assert!(matches!(
        ExporterBuilder::from_env(&env),
        Err(Error::MissingEnvironmentVariable("LANGFUSE_SECRET_KEY"))
    ));
}

#[test]
fn exporter_is_built_from_explicit_configuration() {
    assert!(exporter("https://cloud.langfuse.com", "pk-lf-1234567890", "sk-lf-1234567890").is_ok());
    let result = ExporterBuilder::new()
        .with_endpoint("https://test.com")
        .with_auth_header("Basic x")
        .with_headers(vec![pair("x-a", "1"), pair("x-a", "2")])
        .with_http_client(reqwest::Client::new())
        .with_timeout(Duration::from_secs(5))
        .build();
    assert!(result.is_ok());
}

#[test]
fn exporter_build_error_is_passed_on() {
    let result = ExporterBuilder::new()
        .with_endpoint("not a uri")
        .with_auth_header("Basic x")
        .build();
    assert!(matches!(result, Err(Error::OtlpExporter(_))));
}
