[package]
name = "opentelemetry-langfuse"
version = "0.1.0"
edition = "2021"
publish = false

[dependencies]
base64 = "0.22"
serde_json = "1"
opentelemetry = { version = "0.30", default-features = false, features = ["trace"] }
opentelemetry_sdk = { version = "0.30", default-features = false, features = ["trace"] }
opentelemetry-otlp = { version = "0.30", default-features = false, features = ["http-proto", "trace", "reqwest-client"] }
reqwest = { version = "0.12", default-features = false }
thiserror = "2"
