use base64::engine::general_purpose::STANDARD;
use base64::Engine;
use opentelemetry_langfuse::auth::{build_auth_header, build_auth_header_from_env};
use opentelemetry_langfuse::environment::Environment;
use opentelemetry_langfuse::error::Error;

#[test]
fn test_build_auth_header() {
    let auth = build_auth_header("pk-lf-test", "sk-lf-secret");
    let expected = format!("Basic {}", STANDARD.encode("pk-lf-test:sk-lf-secret"));
    assert_eq!(auth, expected);
}

#[test]
fn test_build_auth_header_from_env() {
    let mut env = Environment::empty();
    env.langfuse_public_key = Some("pk-env-test".to_string());
    env.langfuse_secret_key = Some("sk-env-secret".to_string());

    let auth = build_auth_header_from_env(&env).unwrap();
    let expected = format!("Basic {}", STANDARD.encode("pk-env-test:sk-env-secret"));
    assert_eq!(auth, expected);
}

#[test]
fn test_missing_env_keys() {
    let env = Environment::empty();

    let result = build_auth_header_from_env(&env);
    assert!(result.is_err());
    assert!(matches!(
        result.unwrap_err(),
        Error::MissingEnvironmentVariable("LANGFUSE_PUBLIC_KEY")
    ));
}

#[test]
fn missing_secret_key_is_named() {
    let mut env = Environment::empty();
    env.langfuse_public_key = Some("pk".to_string());
    assert!(matches!(
        build_auth_header_from_env(&env),
        Err(Error::MissingEnvironmentVariable("LANGFUSE_SECRET_KEY"))
    ));
}

#[test]
fn auth_header_exact_text() {
    assert_eq!(build_auth_header("user", "pass"), "Basic dXNlcjpwYXNz");
    assert_eq!(build_auth_header("test", "test"), "Basic dGVzdDp0ZXN0");
    assert_eq!(build_auth_header("", ""), "Basic Og==");
    assert_eq!(build_auth_header("a", ""), "Basic YTo=");
    assert_eq!(build_auth_header("\u{fb}\u{ff}", "?>"), "Basic w7vDvzo/Pg==");
}

#[test]
fn auth_header_decodes_to_the_key_pair() {
    let header = build_auth_header("pk-lf-1234567890", "sk-lf:0987654321");
    let text = header.strip_prefix("Basic ").unwrap();
    let decoded = String::from_utf8(STANDARD.decode(text).unwrap()).unwrap();
    let (public_key, secret_key) = decoded.split_once(':').unwrap();
    assert_eq!(public_key, "pk-lf-1234567890");
    assert_eq!(secret_key, "sk-lf:0987654321");
}

#[test]
fn error_messages() {
    assert_eq!(
        Error::MissingEnvironmentVariable("LANGFUSE_PUBLIC_KEY").message(),
        "Missing environment variable: LANGFUSE_PUBLIC_KEY"
    );
    assert_eq!(
        Error::MissingConfiguration("endpoint").message(),
        "Missing configuration: endpoint"
    );
    assert_eq!(
        Error::ExporterError("closed".to_string()).message(),
        "Exporter error: closed"
    );
    assert_eq!(
        Error::OtlpExporter(opentelemetry_otlp::ExporterBuildError::NoHttpClient).message(),
        "OTLP exporter error: no http client specified"
    );
    assert_eq!(
        Error::OpenTelemetry(opentelemetry_sdk::trace::TraceError::from("boom")).message(),
        "OpenTelemetry error: boom"
    );
    assert_eq!(
        opentelemetry_langfuse::builder::BuilderError::OpenTelemetry(
            opentelemetry_sdk::trace::TraceError::TracerProviderAlreadyShutdown
        )
        .message(),
        "OpenTelemetry error: TracerProvider already shutdown"
    );
}
