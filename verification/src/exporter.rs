//! Langfuse OTLP exporter configuration.
//!
//! The [`ExporterBuilder`] collects what an OpenTelemetry OTLP exporter needs
//! to send traces to Langfuse, settles the endpoint and the headers, and has
//! `opentelemetry_otlp` build the exporter.

use crate::assoc::{entry_views, lookup, option_view, set_entry, upsert};
use crate::auth::{auth_header, auth_header_of_env, build_auth_header, build_auth_header_from_env};
use crate::constants::{ENV_LANGFUSE_PUBLIC_KEY, ENV_LANGFUSE_SECRET_KEY};
use crate::endpoint::{
    build_otlp_endpoint, build_otlp_endpoint_from_env, endpoint_of_env, otlp_endpoint,
};
use crate::environment::Environment;
use crate::error::Error;
use crate::headers::{
    has_authorization, headers_in, holds_authorization, lemma_normalized_authorization,
    lemma_set_authorization_wins, merge_headers, merged, parse_headers, resolve_headers,
    resolved_headers, HeaderViews, AUTHORIZATION,
};
use opentelemetry_otlp::{
    ExporterBuildError, HttpExporterBuilderSet, SpanExporter, SpanExporterBuilder,
    WithExportConfig, WithHttpConfig,
};
use std::time::Duration;
use vstd::prelude::*;

verus! {

#[verifier::external_type_specification]
#[verifier::external_body]
pub struct ExSpanExporter(opentelemetry_otlp::SpanExporter);

#[verifier::external_type_specification]
#[verifier::external_body]
#[verifier::reject_recursive_types(C)]
pub struct ExSpanExporterBuilder<C>(opentelemetry_otlp::SpanExporterBuilder<C>);

#[verifier::external_type_specification]
#[verifier::external_body]
pub struct ExHttpExporterBuilderSet(opentelemetry_otlp::HttpExporterBuilderSet);

#[verifier::external_type_specification]
#[verifier::external_body]
pub struct ExHttpClient(reqwest::Client);

/// What `build` reports as missing where no endpoint was set.
pub const MISSING_ENDPOINT: &'static str = "endpoint";

/// What `build` reports as missing where no authorization is to be had.
pub const MISSING_AUTHORIZATION: &'static str = "Authorization header or Langfuse credentials";

/// Builder for configuring a Langfuse OTLP exporter.
pub struct ExporterBuilder {
    endpoint: Option<String>,
    auth_header: Option<String>,
    timeout: Option<Duration>,
    additional_headers: Vec<(String, String)>,
    http_client: Option<reqwest::Client>,
}

/// What an [`ExporterBuilder`] holds.
pub struct ExporterBuilderView {
    /// The complete OTLP endpoint URL.
    pub endpoint: Option<Seq<char>>,
    /// The value that was set for the authorization header.
    pub auth_header: Option<Seq<char>>,
    /// The HTTP timeout.
    pub timeout: Option<Duration>,
    /// The additional headers, in the order in which their names were first set.
    pub headers: HeaderViews,
    /// The HTTP client to use in place of a default one.
    pub http_client: Option<reqwest::Client>,
}

/// The configuration that is handed to `opentelemetry_otlp`.
pub struct ExporterConfig {
    /// The OTLP endpoint URL.
    pub endpoint: String,
    /// The headers to send, with exactly one `Authorization` among them.
    pub headers: Vec<(String, String)>,
    /// The HTTP timeout, where one was set.
    pub timeout: Option<Duration>,
    /// The HTTP client, where one was set.
    pub http_client: Option<reqwest::Client>,
}

impl View for ExporterBuilder {
    type V = ExporterBuilderView;

    closed spec fn view(&self) -> ExporterBuilderView {
        ExporterBuilderView {
            endpoint: option_view(self.endpoint),
            auth_header: option_view(self.auth_header),
            timeout: self.timeout,
            headers: entry_views(self.additional_headers@),
            http_client: self.http_client,
        }
    }
}

/// The builder that holds nothing.
pub open spec fn empty_builder() -> ExporterBuilderView {
    ExporterBuilderView {
        endpoint: None,
        auth_header: None,
        timeout: None,
        headers: Seq::empty(),
        http_client: None,
    }
}

/// The headers that the OTLP variables of an environment state: those of
/// the variable for traces where it is set, else those of the general one.
pub open spec fn headers_of_env(env: Environment) -> HeaderViews {
    match env.otel_traces_headers {
        Some(text) => merged(Seq::empty(), headers_in(text@)),
        None => match env.otel_headers {
            Some(text) => merged(Seq::empty(), headers_in(text@)),
            None => Seq::empty(),
        },
    }
}

/// The builder that an environment gives, or the name of the variable that
/// is missing. The Langfuse keys give the authorization where both are set;
/// without them the headers of the OTLP variables must hold one.
pub open spec fn builder_of_env(env: Environment) -> Result<ExporterBuilderView, Seq<char>> {
    match auth_header_of_env(env) {
        Ok(header) => Ok(
            ExporterBuilderView {
                endpoint: Some(endpoint_of_env(env)),
                auth_header: Some(header),
                timeout: None,
                headers: headers_of_env(env),
                http_client: None,
            },
        ),
        Err(variable) => if has_authorization(headers_of_env(env)) {
            Ok(
                ExporterBuilderView {
                    endpoint: Some(endpoint_of_env(env)),
                    auth_header: None,
                    timeout: None,
                    headers: headers_of_env(env),
                    http_client: None,
                },
            )
        } else {
            Err(variable)
        },
    }
}

/// What `resolve` returns for a builder: the configuration, or what is missing.
pub open spec fn config_of(builder: ExporterBuilderView) -> Result<
    (Seq<char>, HeaderViews),
    Seq<char>,
> {
    match builder.endpoint {
        None => Err(MISSING_ENDPOINT@),
        Some(endpoint) => match resolved_headers(builder.headers, builder.auth_header) {
            None => Err(MISSING_AUTHORIZATION@),
            Some(headers) => Ok((endpoint, headers)),
        },
    }
}

/// `SpanExporter::builder`, `with_http`, `with_endpoint` and `with_headers`
/// of `opentelemetry_otlp`: a builder for an exporter over HTTP that holds
/// the endpoint and the headers.
#[verifier::external_body]
fn http_exporter(endpoint: String, headers: Vec<(String, String)>) -> SpanExporterBuilder<
    HttpExporterBuilderSet,
> {
    SpanExporter::builder().with_http().with_endpoint(endpoint).with_headers(
        headers.into_iter().collect(),
    )
}

/// `reqwest::Client::default`: an HTTP client with the defaults of `reqwest`.
/// It panics where a TLS backend or a resolver cannot be set up; the
/// `reqwest` that this crate asks for has neither.
#[verifier::external_body]
fn default_http_client() -> reqwest::Client {
    reqwest::Client::default()
}

/// `WithHttpConfig::with_http_client`: the builder with `client` as its HTTP client.
#[verifier::external_body]
fn exporter_with_client(
    builder: SpanExporterBuilder<HttpExporterBuilderSet>,
    client: reqwest::Client,
) -> SpanExporterBuilder<HttpExporterBuilderSet> {
    builder.with_http_client(client)
}

/// `WithExportConfig::with_timeout`: the builder with `timeout` as its timeout.
#[verifier::external_body]
fn exporter_with_timeout(
    builder: SpanExporterBuilder<HttpExporterBuilderSet>,
    timeout: Duration,
) -> SpanExporterBuilder<HttpExporterBuilderSet> {
    builder.with_timeout(timeout)
}

/// `SpanExporterBuilder::build`: the exporter, or the reason why none could
/// be built. The outcome depends on the process environment too, which
/// `opentelemetry_otlp` reads, so nothing is stated of it.
#[verifier::external_body]
fn exporter_built(builder: SpanExporterBuilder<HttpExporterBuilderSet>) -> Result<
    SpanExporter,
    ExporterBuildError,
> {
    builder.build()
}

impl ExporterBuilder {
    /// Creates a new ExporterBuilder.
    pub fn new() -> (builder: Self)
        ensures
            builder@ == empty_builder(),
    {
        let additional_headers: Vec<(String, String)> = Vec::new();
        assert(entry_views(additional_headers@) =~= Seq::empty());
        ExporterBuilder {
            endpoint: None,
            auth_header: None,
            timeout: None,
            additional_headers,
            http_client: None,
        }
    }

    /// Sets the Langfuse endpoint URL: the complete OTLP endpoint URL.
    pub fn with_endpoint(self, endpoint: &str) -> (builder: Self)
        ensures
            builder@ == (ExporterBuilderView { endpoint: Some(endpoint@), ..self@ }),
    {
        let mut builder = self;
        builder.endpoint = Some(endpoint.to_owned());
        builder
    }

    /// Sets the authentication header: the complete header value.
    pub fn with_auth_header(self, auth_header: &str) -> (builder: Self)
        ensures
            builder@ == (ExporterBuilderView { auth_header: Some(auth_header@), ..self@ }),
    {
        let mut builder = self;
        builder.auth_header = Some(auth_header.to_owned());
        builder
    }

    /// Sets the Basic authentication credentials.
    pub fn with_basic_auth(self, public_key: &str, secret_key: &str) -> (builder: Self)
        ensures
            builder@ == (ExporterBuilderView {
                auth_header: Some(auth_header(public_key@, secret_key@)),
                ..self@
            }),
    {
        let mut builder = self;
        builder.auth_header = Some(build_auth_header(public_key, secret_key));
        builder
    }

    /// Sets the Langfuse host URL, the base URL below which the endpoint lies.
    pub fn with_host(self, host: &str) -> (builder: Self)
        ensures
            builder@ == (ExporterBuilderView { endpoint: Some(otlp_endpoint(host@)), ..self@ }),
    {
        let mut builder = self;
        builder.endpoint = Some(build_otlp_endpoint(host));
        builder
    }

    /// Sets the HTTP timeout for the exporter.
    pub fn with_timeout(self, timeout: Duration) -> (builder: Self)
        ensures
            builder@ == (ExporterBuilderView { timeout: Some(timeout), ..self@ }),
    {
        let mut builder = self;
        builder.timeout = Some(timeout);
        builder
    }

    /// Sets a custom HTTP client for the exporter, for proxy settings, custom
    /// certificates or connection pooling. Without one, `build` uses a new
    /// client with the defaults of `reqwest`.
    pub fn with_http_client(self, client: reqwest::Client) -> (builder: Self)
        ensures
            builder@ == (ExporterBuilderView { http_client: Some(client), ..self@ }),
    {
        let mut builder = self;
        builder.http_client = Some(client);
        builder
    }

    /// Adds an additional HTTP header; a header of the same name (in the
    /// same casing) is replaced.
    pub fn with_header(self, name: &str, value: &str) -> (builder: Self)
        ensures
            builder@ == (ExporterBuilderView {
                headers: upsert(self@.headers, name@, value@),
                ..self@
            }),
    {
        let mut builder = self;
        set_entry(&mut builder.additional_headers, name.to_owned(), value.to_owned());
        builder
    }

    /// Adds multiple HTTP headers, one after the other.
    pub fn with_headers(self, headers: Vec<(String, String)>) -> (builder: Self)
        ensures
            builder@ == (ExporterBuilderView {
                headers: merged(self@.headers, entry_views(headers@)),
                ..self@
            }),
    {
        let ExporterBuilder { endpoint, auth_header, timeout, additional_headers, http_client } =
            self;
        ExporterBuilder {
            endpoint,
            auth_header,
            timeout,
            additional_headers: merge_headers(additional_headers, &headers),
            http_client,
        }
    }

    /// Creates an ExporterBuilder from the variables of an environment.
    ///
    /// The endpoint comes from `LANGFUSE_HOST`, else from the endpoint
    /// variables of OTLP, else it is that of the Langfuse cloud. The
    /// authorization comes from `LANGFUSE_PUBLIC_KEY` and
    /// `LANGFUSE_SECRET_KEY`; the headers of
    /// `OTEL_EXPORTER_OTLP_TRACES_HEADERS`, else of
    /// `OTEL_EXPORTER_OTLP_HEADERS`, become additional headers. Where a
    /// Langfuse key is missing and these headers hold no authorization,
    /// the first missing key is reported.
    pub fn from_env(env: &Environment) -> (result: Result<Self, Error>)
        ensures
            match builder_of_env(*env) {
                Ok(expected) => result matches Ok(builder) && builder@ == expected,
                Err(variable) => result matches Err(Error::MissingEnvironmentVariable(name))
                    && name@ == variable,
            },
    {
        let endpoint = match build_otlp_endpoint_from_env(env) {
            Ok(endpoint) => endpoint,
            Err(error) => {
                return Err(error);
            },
        };
        let start: Vec<(String, String)> = Vec::new();
        proof {
            assert(entry_views(start@) =~= Seq::empty());
        }
        let headers = match &env.otel_traces_headers {
            Some(text) => merge_headers(start, &parse_headers(text.as_str())),
            None => match &env.otel_headers {
                Some(text) => merge_headers(start, &parse_headers(text.as_str())),
                None => start,
            },
        };
        match build_auth_header_from_env(env) {
            Ok(header) => Ok(
                ExporterBuilder {
                    endpoint: Some(endpoint),
                    auth_header: Some(header),
                    timeout: None,
                    additional_headers: headers,
                    http_client: None,
                },
            ),
            Err(error) => {
                if holds_authorization(&headers) {
                    Ok(
                        ExporterBuilder {
                            endpoint: Some(endpoint),
                            auth_header: None,
                            timeout: None,
                            additional_headers: headers,
                            http_client: None,
                        },
                    )
                } else {
                    Err(error)
                }
            },
        }
    }

    /// Settles the configuration of the exporter.
    ///
    /// Fails with `MissingConfiguration` where no endpoint was set, and
    /// where neither an authorization was set nor the additional headers
    /// hold one. The headers are handed on under their canonical names; an
    /// authorization that was set replaces what the additional headers hold
    /// under that name.
    pub fn resolve(self) -> (result: Result<ExporterConfig, Error>)
        ensures
            match config_of(self@) {
                Ok((endpoint, headers)) => result matches Ok(config) && config.endpoint@
                    == endpoint && entry_views(config.headers@) == headers && config.timeout
                    == self@.timeout && config.http_client == self@.http_client,
                Err(missing) => result matches Err(Error::MissingConfiguration(what)) && what@
                    == missing,
            },
    {
        let ExporterBuilder { endpoint, auth_header, timeout, additional_headers, http_client } =
            self;
        match endpoint {
            None => Err(Error::MissingConfiguration(MISSING_ENDPOINT)),
            Some(endpoint) => match resolve_headers(&additional_headers, auth_header) {
                None => Err(Error::MissingConfiguration(MISSING_AUTHORIZATION)),
                Some(headers) => Ok(ExporterConfig { endpoint, headers, timeout, http_client }),
            },
        }
    }

    /// What `build` returns for the outcome of the OTLP builder: the
    /// exporter, or the builder's error as an error of this library.
    pub fn finish(outcome: Result<SpanExporter, ExporterBuildError>) -> (result: Result<
        SpanExporter,
        Error,
    >)
        ensures
            match outcome {
                Ok(exporter) => result == Ok::<SpanExporter, Error>(exporter),
                Err(error) => result == Err::<SpanExporter, Error>(Error::OtlpExporter(error)),
            },
    {
        match outcome {
            Ok(exporter) => Ok(exporter),
            Err(error) => Err(Error::OtlpExporter(error)),
        }
    }

    /// Builds the Langfuse OTLP exporter.
    ///
    /// Fails as `resolve` does where the configuration is incomplete. With
    /// a complete configuration the exporter is built by
    /// `opentelemetry_otlp` from what `resolve` returns, with a default
    /// HTTP client where none was set, and the only error left is the one
    /// that it reports.
    ///
    /// What goes over the wire is the business of `opentelemetry_otlp`: it
    /// percent-decodes the header values that it is handed, and it lays the
    /// headers of `OTEL_EXPORTER_OTLP_TRACES_HEADERS`, else of
    /// `OTEL_EXPORTER_OTLP_HEADERS`, as the process has them, over the
    /// handed ones, by name without regard to case.
    pub fn build(self) -> (result: Result<SpanExporter, Error>)
        ensures
            match config_of(self@) {
                Ok(_) => result is Ok || result matches Err(Error::OtlpExporter(_)),
                Err(missing) => result matches Err(Error::MissingConfiguration(what)) && what@
                    == missing,
            },
    {
        match self.resolve() {
            Err(error) => Err(error),
            Ok(config) => {
                let ExporterConfig { endpoint, headers, timeout, http_client } = config;
                let client = match http_client {
                    Some(client) => client,
                    None => default_http_client(),
                };
                let mut builder = exporter_with_client(http_exporter(endpoint, headers), client);
                if let Some(timeout) = timeout {
                    builder = exporter_with_timeout(builder, timeout);
                }
                Self::finish(exporter_built(builder))
            },
        }
    }
}

impl Default for ExporterBuilder {
    fn default() -> (builder: Self)
        ensures
            builder@ == empty_builder(),
    {
        Self::new()
    }
}

/// Creates a Langfuse OTLP exporter using explicit configuration: the base
/// URL of the Langfuse instance and the two keys.
///
/// This configuration is complete, so the only error is one that
/// `opentelemetry_otlp` reports.
pub fn exporter(host: &str, public_key: &str, secret_key: &str) -> (result: Result<
    SpanExporter,
    Error,
>)
    ensures
        result is Ok || result matches Err(Error::OtlpExporter(_)),
{
    ExporterBuilder::new().with_host(host).with_basic_auth(public_key, secret_key).build()
}

/// Without both Langfuse keys and without an authorization among the
/// headers of the OTLP variables, the environment gives no builder: the
/// missing key is reported, the public one first. With the keys, or with
/// such a header, it gives one.
pub proof fn lemma_credentials_required(env: Environment)
    ensures
        builder_of_env(env) is Err <==> (env.langfuse_public_key is None
            || env.langfuse_secret_key is None) && !has_authorization(headers_of_env(env)),
        builder_of_env(env) is Err && env.langfuse_public_key is None ==> builder_of_env(env)
            == Err::<ExporterBuilderView, Seq<char>>(ENV_LANGFUSE_PUBLIC_KEY@),
        builder_of_env(env) is Err && env.langfuse_public_key is Some ==> builder_of_env(env)
            == Err::<ExporterBuilderView, Seq<char>>(ENV_LANGFUSE_SECRET_KEY@),
{
}

/// An environment that sets the Langfuse host alone gives no builder.
pub proof fn lemma_host_alone_is_not_enough(env: Environment)
    requires
        env.langfuse_public_key is None,
        env.langfuse_secret_key is None,
        env.otel_traces_headers is None,
        env.otel_headers is None,
    ensures
        builder_of_env(env) == Err::<ExporterBuilderView, Seq<char>>(ENV_LANGFUSE_PUBLIC_KEY@),
{
    assert(headers_of_env(env).len() == 0);
}

/// The Langfuse variables take precedence over those of OTLP. With the
/// Langfuse host set, the endpoint is the one below that host, whatever the
/// endpoint variables of OTLP hold. With both Langfuse keys set, the
/// authorization that is handed to the OTLP builder is the one of the keys,
/// whatever the header variables of OTLP hold.
pub proof fn lemma_langfuse_variables_take_precedence(env: Environment)
    ensures
        env.langfuse_host matches Some(host) ==> endpoint_of_env(env) == otlp_endpoint(host@),
        env.langfuse_public_key is Some && env.langfuse_secret_key is Some ==> {
            &&& builder_of_env(env) matches Ok(builder)
            &&& builder.endpoint == Some(endpoint_of_env(env))
            &&& config_of(builder) matches Ok((endpoint, headers))
            &&& endpoint == endpoint_of_env(env)
            &&& lookup(headers, AUTHORIZATION@) == Some(
                auth_header(env.langfuse_public_key->0@, env.langfuse_secret_key->0@),
            )
        },
{
    match (env.langfuse_public_key, env.langfuse_secret_key) {
        (Some(public_key), Some(secret_key)) => {
            lemma_set_authorization_wins(
                headers_of_env(env),
                auth_header(public_key@, secret_key@),
            );
        },
        _ => {},
    }
}

/// A builder that an environment gives is complete: its configuration can
/// be settled.
pub proof fn lemma_builder_of_env_is_complete(env: Environment)
    requires
        builder_of_env(env) is Ok,
    ensures
        config_of(builder_of_env(env)->Ok_0) is Ok,
{
    lemma_normalized_authorization(headers_of_env(env));
}

} // verus!
