//! OpenTelemetry integration for Langfuse.
//!
//! This crate configures OpenTelemetry components for sending traces to
//! Langfuse, and maps span attributes between the vocabulary of
//! Langfuse and the GenAI semantic conventions of OpenTelemetry.
//!
//! # Components
//!
//! - [`exporter`]: the configuration of the OTLP/HTTP exporter, with the
//!   endpoint and the authorization settled from explicit values or from
//!   the variables of an [`environment::Environment`].
//! - [`mapper`]: the rules that map attributes in both directions.
//! - [`span_ext`] and [`attributes`]: setters and builders for the
//!   attributes of spans, traces and observations.
//! - [`context`]: attribute storage that is handed through call chains.
//!
//! # Environment Variables
//!
//! - `LANGFUSE_HOST`: base URL of the Langfuse instance (defaults to
//!   `https://cloud.langfuse.com`)
//! - `LANGFUSE_PUBLIC_KEY`, `LANGFUSE_SECRET_KEY`: the Langfuse keys
//! - `OTEL_EXPORTER_OTLP_TRACES_ENDPOINT`, `OTEL_EXPORTER_OTLP_ENDPOINT`,
//!   `OTEL_EXPORTER_OTLP_TRACES_HEADERS`, `OTEL_EXPORTER_OTLP_HEADERS`: the
//!   standard variables of OTLP, which the Langfuse variables take
//!   precedence over
//!
//! The library does not read the process environment itself: the caller
//! hands it the values.

pub mod assoc;
pub mod attributes;
pub mod auth;
pub mod base64;
pub mod builder;
pub mod constants;
pub mod context;
pub mod convert;
pub mod endpoint;
pub mod environment;
pub mod error;
pub mod exporter;
pub mod headers;
pub mod json;
pub mod key_value;
pub mod mapper;
pub mod processor;
pub mod span_ext;
pub mod span_storage;
pub mod text;
pub mod tracer;

pub use auth::{build_auth_header, build_auth_header_from_env};
pub use context::{LangfuseContext, LangfuseContextBuilder, TracingContext};
pub use endpoint::{build_otlp_endpoint, build_otlp_endpoint_from_env};
pub use environment::Environment;
pub use error::{Error, Result};
pub use exporter::{exporter, ExporterBuilder};
pub use span_ext::{GenAISpanExt, LangfuseSpanExt, SpanAttributes};
