//! Endpoint URL utilities for Langfuse.

use crate::constants::DEFAULT_LANGFUSE_HOST;
use crate::environment::Environment;
use crate::error::Error;
use crate::text::{concat, lemma_trim_end, lemma_trim_end_unique, trim_end, trim_end_matches};
use vstd::prelude::*;

verus! {

/// The path of the OTLP endpoint below a Langfuse host.
pub const OTLP_PATH: &'static str = "/api/public/otel";

/// The path that the OTLP convention puts below a base endpoint for traces.
pub const OTEL_TRACES_PATH: &'static str = "/v1/traces";

/// The OTLP endpoint of the Langfuse instance at `base`: `base` without
/// the slashes at its end, then the API path.
pub open spec fn otlp_endpoint(base: Seq<char>) -> Seq<char> {
    trim_end(base, '/') + OTLP_PATH@
}

/// The traces endpoint below a generic OTLP base endpoint.
pub open spec fn otel_traces_endpoint(base: Seq<char>) -> Seq<char> {
    trim_end(base, '/') + OTEL_TRACES_PATH@
}

/// The endpoint that an environment selects. In order of precedence: the
/// Langfuse host, the traces endpoint of OTLP taken as it is, the base
/// endpoint of OTLP, the Langfuse cloud.
pub open spec fn endpoint_of_env(env: Environment) -> Seq<char> {
    match env.langfuse_host {
        Some(host) => otlp_endpoint(host@),
        None => match env.otel_traces_endpoint {
            Some(endpoint) => endpoint@,
            None => match env.otel_endpoint {
                Some(base) => otel_traces_endpoint(base@),
                None => otlp_endpoint(DEFAULT_LANGFUSE_HOST@),
            },
        },
    }
}

/// Builds the Langfuse OTLP endpoint URL by appending the API path.
///
/// Slashes at the end of `base_url` are dropped first, so that
/// `https://cloud.langfuse.com` and `https://cloud.langfuse.com/` give the
/// same endpoint, `https://cloud.langfuse.com/api/public/otel`.
pub fn build_otlp_endpoint(base_url: &str) -> (endpoint: String)
    ensures
        endpoint@ == otlp_endpoint(base_url@),
{
    let url = trim_end_matches(base_url, '/');
    concat(url, OTLP_PATH)
}

/// Builds the OTLP endpoint URL that the environment asks for.
///
/// `LANGFUSE_HOST` wins over `OTEL_EXPORTER_OTLP_TRACES_ENDPOINT`, which wins
/// over `OTEL_EXPORTER_OTLP_ENDPOINT`; with none of them set the endpoint is
/// that of the Langfuse cloud. No environment makes this fail.
pub fn build_otlp_endpoint_from_env(env: &Environment) -> (result: Result<String, Error>)
    ensures
        result matches Ok(endpoint) && endpoint@ == endpoint_of_env(*env),
{
    match &env.langfuse_host {
        Some(host) => Ok(build_otlp_endpoint(host.as_str())),
        None => match &env.otel_traces_endpoint {
            Some(endpoint) => Ok(endpoint.clone()),
            None => match &env.otel_endpoint {
                Some(base) => {
                    let url = trim_end_matches(base.as_str(), '/');
                    Ok(concat(url, OTEL_TRACES_PATH))
                },
                None => Ok(build_otlp_endpoint(DEFAULT_LANGFUSE_HOST)),
            },
        },
    }
}

/// Slashes at the end of a host do not change the endpoint: a host with `n`
/// more of them gives the endpoint of the host itself.
pub proof fn lemma_endpoint_ignores_trailing_slashes(host: Seq<char>, n: nat)
    ensures
        otlp_endpoint(host + Seq::new(n, |i: int| '/')) == otlp_endpoint(host),
    decreases n,
{
    let slashes = Seq::new(n, |i: int| '/');
    if n == 0 {
        assert(host + slashes == host);
    } else {
        let fewer = Seq::new((n - 1) as nat, |i: int| '/');
        assert((host + slashes).drop_last() == host + fewer);
        lemma_endpoint_ignores_trailing_slashes(host, (n - 1) as nat);
    }
}

/// A host with one slash at its end gives the endpoint of the host without it.
pub proof fn lemma_endpoint_with_or_without_slash(host: Seq<char>)
    ensures
        otlp_endpoint(host.push('/')) == otlp_endpoint(host),
{
    assert(host.push('/').drop_last() == host);
}

/// Dropping the slashes at the end of a host is idempotent: the result has
/// none left, so doing it again changes nothing, and the endpoint of the
/// normalized host is the endpoint of the host.
pub proof fn lemma_normalization_idempotent(host: Seq<char>)
    ensures
        trim_end(trim_end(host, '/'), '/') == trim_end(host, '/'),
        otlp_endpoint(trim_end(host, '/')) == otlp_endpoint(host),
{
    lemma_trim_end(host, '/');
    let t = trim_end(host, '/');
    lemma_trim_end_unique(t, '/', t.len() as int);
    assert(t.take(t.len() as int) == t);
}

} // verus!
