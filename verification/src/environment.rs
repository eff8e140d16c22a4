//! The environment variables that configure an exporter, as plain values.

use vstd::prelude::*;

verus! {

/// What the process environment holds for each variable that the library
/// consults; `None` where a variable is not set.
///
/// Reading the environment is left to the caller, so that every decision the
/// library takes is a function of this value.
pub struct Environment {
    /// `LANGFUSE_HOST`
    pub langfuse_host: Option<String>,
    /// `LANGFUSE_PUBLIC_KEY`
    pub langfuse_public_key: Option<String>,
    /// `LANGFUSE_SECRET_KEY`
    pub langfuse_secret_key: Option<String>,
    /// `OTEL_EXPORTER_OTLP_TRACES_ENDPOINT`
    pub otel_traces_endpoint: Option<String>,
    /// `OTEL_EXPORTER_OTLP_ENDPOINT`
    pub otel_endpoint: Option<String>,
    /// `OTEL_EXPORTER_OTLP_TRACES_HEADERS`
    pub otel_traces_headers: Option<String>,
    /// `OTEL_EXPORTER_OTLP_HEADERS`
    pub otel_headers: Option<String>,
}

impl Environment {
    /// An environment in which none of the variables is set.
    pub fn empty() -> (env: Self)
        ensures
            env.langfuse_host is None,
            env.langfuse_public_key is None,
            env.langfuse_secret_key is None,
            env.otel_traces_endpoint is None,
            env.otel_endpoint is None,
            env.otel_traces_headers is None,
            env.otel_headers is None,
    {
        Environment {
            langfuse_host: None,
            langfuse_public_key: None,
            langfuse_secret_key: None,
            otel_traces_endpoint: None,
            otel_endpoint: None,
            otel_traces_headers: None,
            otel_headers: None,
        }
    }
}

} // verus!
