//! Tracer configuration for Langfuse integration.
//!
//! The [`TracerBuilder`] collects what a tracer provider needs and settles
//! it: the exporter and the attributes of the resource. Creating the
//! provider from what `install` returns, and making it the provider of the
//! process, is left to the caller.

use crate::assoc::{entry_views, lookup, option_view, set_entry, upsert};
use crate::auth::{auth_header, auth_header_of_env, build_auth_header, build_auth_header_from_env};
use crate::endpoint::{
    build_otlp_endpoint, build_otlp_endpoint_from_env, endpoint_of_env, otlp_endpoint,
};
use crate::environment::Environment;
use crate::error::Error;
use crate::exporter::{config_of, ExporterBuilder, ExporterBuilderView, MISSING_ENDPOINT};
use crate::headers::{
    clone_headers, lemma_resolved_single_authorization, lemma_set_authorization_wins,
    merge_headers, merged, single_authorization, HeaderViews, AUTHORIZATION,
};
use crate::key_value::{
    append_attributes, text_attribute, views, AttributeValue, KeyValue, KeyValueView,
};
use opentelemetry_otlp::SpanExporter;
use std::time::Duration;
use vstd::prelude::*;

verus! {

/// What `install` reports as missing where no authorization was set.
pub const MISSING_AUTH_HEADER: &'static str = "auth_header";

/// Builder for configuring a Langfuse tracer.
pub struct TracerBuilder {
    service_name: String,
    endpoint: Option<String>,
    auth_header: Option<String>,
    resource_attributes: Vec<KeyValue>,
    detect_resources: bool,
    timeout: Option<Duration>,
    additional_headers: Vec<(String, String)>,
}

/// What a [`TracerBuilder`] holds.
pub struct TracerBuilderView {
    /// The name of the service for tracing.
    pub service_name: Seq<char>,
    /// The complete OTLP endpoint URL.
    pub endpoint: Option<Seq<char>>,
    /// The complete authentication header value.
    pub auth_header: Option<Seq<char>>,
    /// The resource attributes, in the order in which they were added.
    pub resource_attributes: Seq<KeyValueView>,
    /// Whether resource attributes are detected from the environment.
    pub detect_resources: bool,
    /// The HTTP timeout.
    pub timeout: Option<Duration>,
    /// The additional headers, in the order in which their names were first set.
    pub headers: HeaderViews,
}

/// What `install` settles: everything that a tracer provider is created from.
pub struct TracerInstallation {
    /// The exporter that sends the spans.
    pub exporter: SpanExporter,
    /// The attributes of the resource, the name of the service last.
    pub resource_attributes: Vec<KeyValue>,
    /// Whether the resource attributes of the environment are to be merged in.
    pub detect_resources: bool,
}

impl View for TracerBuilder {
    type V = TracerBuilderView;

    closed spec fn view(&self) -> TracerBuilderView {
        TracerBuilderView {
            service_name: self.service_name@,
            endpoint: option_view(self.endpoint),
            auth_header: option_view(self.auth_header),
            resource_attributes: views(self.resource_attributes@),
            detect_resources: self.detect_resources,
            timeout: self.timeout,
            headers: entry_views(self.additional_headers@),
        }
    }
}

/// What is missing for `install`, if anything: the endpoint first, then
/// the authorization.
pub open spec fn missing_for_install(builder: TracerBuilderView) -> Option<Seq<char>> {
    if builder.endpoint is None {
        Some(MISSING_ENDPOINT@)
    } else if builder.auth_header is None {
        Some(MISSING_AUTH_HEADER@)
    } else {
        None
    }
}

/// The exporter builder that a tracer builder sets up: the endpoint, the
/// authorization and the timeout as they were set, and the additional
/// headers set one after the other.
pub open spec fn exporter_of(builder: TracerBuilderView) -> ExporterBuilderView {
    ExporterBuilderView {
        endpoint: builder.endpoint,
        auth_header: builder.auth_header,
        timeout: builder.timeout,
        headers: merged(Seq::empty(), builder.headers),
        http_client: None,
    }
}

/// The builder that the Langfuse variables of an environment give from
/// `builder`, or the name of the variable that is missing.
pub open spec fn tracer_builder_of_env(builder: TracerBuilderView, env: Environment) -> Result<
    TracerBuilderView,
    Seq<char>,
> {
    match auth_header_of_env(env) {
        Ok(header) => Ok(
            TracerBuilderView {
                endpoint: Some(endpoint_of_env(env)),
                auth_header: Some(header),
                ..builder
            },
        ),
        Err(variable) => Err(variable),
    }
}

impl TracerBuilder {
    /// Creates a new TracerBuilder with the given service name.
    pub fn new(service_name: &str) -> (builder: Self)
        ensures
            builder@ == (TracerBuilderView {
                service_name: service_name@,
                endpoint: None,
                auth_header: None,
                resource_attributes: Seq::empty(),
                detect_resources: true,
                timeout: None,
                headers: Seq::empty(),
            }),
    {
        let resource_attributes: Vec<KeyValue> = Vec::new();
        let additional_headers: Vec<(String, String)> = Vec::new();
        assert(views(resource_attributes@) =~= Seq::empty());
        assert(entry_views(additional_headers@) =~= Seq::empty());
        TracerBuilder {
            service_name: service_name.to_owned(),
            endpoint: None,
            auth_header: None,
            resource_attributes,
            detect_resources: true,
            timeout: None,
            additional_headers,
        }
    }

    /// Sets the Langfuse endpoint URL: the complete OTLP endpoint URL.
    pub fn with_endpoint(self, endpoint: &str) -> (builder: Self)
        ensures
            builder@ == (TracerBuilderView { endpoint: Some(endpoint@), ..self@ }),
    {
        let mut builder = self;
        builder.endpoint = Some(endpoint.to_owned());
        builder
    }

    /// Sets the authentication header: the complete header value.
    pub fn with_auth_header(self, auth_header: &str) -> (builder: Self)
        ensures
            builder@ == (TracerBuilderView { auth_header: Some(auth_header@), ..self@ }),
    {
        let mut builder = self;
        builder.auth_header = Some(auth_header.to_owned());
        builder
    }

    /// Sets the Langfuse credentials directly.
    pub fn with_credentials(self, public_key: &str, secret_key: &str) -> (builder: Self)
        ensures
            builder@ == (TracerBuilderView {
                auth_header: Some(auth_header(public_key@, secret_key@)),
                ..self@
            }),
    {
        let mut builder = self;
        builder.auth_header = Some(build_auth_header(public_key, secret_key));
        builder
    }

    /// Sets the Langfuse host URL, the base URL below which the endpoint lies.
    pub fn with_host(self, host: &str) -> (builder: Self)
        ensures
            builder@ == (TracerBuilderView { endpoint: Some(otlp_endpoint(host@)), ..self@ }),
    {
        let mut builder = self;
        builder.endpoint = Some(build_otlp_endpoint(host));
        builder
    }

    /// Adds a resource attribute.
    pub fn with_resource_attribute(self, key: &str, value: AttributeValue) -> (builder: Self)
        ensures
            builder@ == (TracerBuilderView {
                resource_attributes: self@.resource_attributes.push(
                    KeyValueView { key: key@, value: value@ },
                ),
                ..self@
            }),
    {
        let mut builder = self;
        let ghost before = views(builder.resource_attributes@);
        builder.resource_attributes.push(KeyValue::new(key, value));
        proof {
            assert(views(builder.resource_attributes@) =~= before.push(
                KeyValueView { key: key@, value: value@ },
            ));
        }
        builder
    }

    /// Adds multiple resource attributes.
    pub fn with_resource_attributes(self, attributes: Vec<KeyValue>) -> (builder: Self)
        ensures
            builder@ == (TracerBuilderView {
                resource_attributes: self@.resource_attributes + views(attributes@),
                ..self@
            }),
    {
        let mut builder = self;
        append_attributes(&mut builder.resource_attributes, attributes);
        builder
    }

    /// Disables automatic resource detection from environment.
    pub fn without_resource_detection(self) -> (builder: Self)
        ensures
            builder@ == (TracerBuilderView { detect_resources: false, ..self@ }),
    {
        let mut builder = self;
        builder.detect_resources = false;
        builder
    }

    /// Sets the HTTP timeout for the exporter.
    pub fn with_timeout(self, timeout: Duration) -> (builder: Self)
        ensures
            builder@ == (TracerBuilderView { timeout: Some(timeout), ..self@ }),
    {
        let mut builder = self;
        builder.timeout = Some(timeout);
        builder
    }

    /// Adds an additional HTTP header; a header of the same name is replaced.
    pub fn with_header(self, name: &str, value: &str) -> (builder: Self)
        ensures
            builder@ == (TracerBuilderView {
                headers: upsert(self@.headers, name@, value@),
                ..self@
            }),
    {
        let mut builder = self;
        set_entry(&mut builder.additional_headers, name.to_owned(), value.to_owned());
        builder
    }

    /// Adds multiple HTTP headers, one after the other.
    pub fn with_headers(self, headers: Vec<(String, String)>) -> (builder: Self)
        ensures
            builder@ == (TracerBuilderView {
                headers: merged(self@.headers, entry_views(headers@)),
                ..self@
            }),
    {
        let TracerBuilder {
            service_name,
            endpoint,
            auth_header,
            resource_attributes,
            detect_resources,
            timeout,
            additional_headers,
        } = self;
        TracerBuilder {
            service_name,
            endpoint,
            auth_header,
            resource_attributes,
            detect_resources,
            timeout,
            additional_headers: merge_headers(additional_headers, &headers),
        }
    }

    /// Loads the endpoint and the authorization from the variables of an
    /// environment. Both Langfuse keys must be set; the first one missing
    /// is reported.
    pub fn from_env(self, env: &Environment) -> (result: Result<Self, Error>)
        ensures
            match tracer_builder_of_env(self@, *env) {
                Ok(expected) => result matches Ok(builder) && builder@ == expected,
                Err(variable) => result matches Err(Error::MissingEnvironmentVariable(name))
                    && name@ == variable,
            },
    {
        let mut builder = self;
        let endpoint = match build_otlp_endpoint_from_env(env) {
            Ok(endpoint) => endpoint,
            Err(error) => {
                return Err(error);
            },
        };
        match build_auth_header_from_env(env) {
            Ok(header) => {
                builder.endpoint = Some(endpoint);
                builder.auth_header = Some(header);
                Ok(builder)
            },
            Err(error) => Err(error),
        }
    }

    /// The exporter builder that `install` uses: with the endpoint, the
    /// authorization and the timeout as far as they were set, and the
    /// additional headers set one after the other.
    pub fn exporter_builder(&self) -> (builder: ExporterBuilder)
        ensures
            builder@ == exporter_of(self@),
    {
        let mut builder = ExporterBuilder::new();
        if let Some(endpoint) = &self.endpoint {
            builder = builder.with_endpoint(endpoint.as_str());
        }
        if let Some(auth_header) = &self.auth_header {
            builder = builder.with_auth_header(auth_header.as_str());
        }
        if let Some(timeout) = self.timeout {
            builder = builder.with_timeout(timeout);
        }
        builder.with_headers(clone_headers(&self.additional_headers))
    }

    /// Settles what the tracer provider is created from.
    ///
    /// Fails with `MissingConfiguration` where the endpoint or the
    /// authorization was not set. With both set, the exporter is built by
    /// `opentelemetry_otlp` from what `exporter_builder` returns, whose
    /// configuration is complete, and the only error left is the one that
    /// `opentelemetry_otlp` reports. The authorization that was set is the
    /// one that is handed to the OTLP builder, whatever the additional
    /// headers hold. The resource attributes are those that were added,
    /// with the name of the service behind them.
    pub fn install(self) -> (result: Result<TracerInstallation, Error>)
        ensures
            match missing_for_install(self@) {
                Some(missing) => result matches Err(Error::MissingConfiguration(what)) && what@
                    == missing,
                None => config_of(exporter_of(self@)) is Ok && match result {
                    Ok(installation) => views(installation.resource_attributes@)
                        == self@.resource_attributes.push(
                        text_attribute(crate::builder::SERVICE_NAME_KEY@, self@.service_name),
                    ) && installation.detect_resources == self@.detect_resources,
                    Err(error) => error is OtlpExporter,
                },
            },
    {
        if self.endpoint.is_none() {
            return Err(Error::MissingConfiguration(MISSING_ENDPOINT));
        }
        if self.auth_header.is_none() {
            return Err(Error::MissingConfiguration(MISSING_AUTH_HEADER));
        }
        let exporter_builder = self.exporter_builder();
        let TracerBuilder { service_name, resource_attributes, detect_resources, .. } = self;
        let exporter = match exporter_builder.build() {
            Ok(exporter) => exporter,
            Err(error) => {
                return Err(error);
            },
        };
        let mut resource_attributes = resource_attributes;
        resource_attributes.push(
            KeyValue::text(crate::builder::SERVICE_NAME_KEY, service_name.as_str()),
        );
        Ok(TracerInstallation { exporter, resource_attributes, detect_resources })
    }
}

/// Settles a tracer with Langfuse backend from the variables of an
/// environment: `LANGFUSE_HOST` or one of its stand-ins for the endpoint,
/// and the two Langfuse keys.
pub fn init_tracer_from_env(service_name: &str, env: &Environment) -> (result: Result<
    TracerInstallation,
    Error,
>)
    ensures
        match auth_header_of_env(*env) {
            Ok(_) => match result {
                Ok(installation) => views(installation.resource_attributes@) == seq![
                    text_attribute(crate::builder::SERVICE_NAME_KEY@, service_name@),
                ] && installation.detect_resources,
                Err(error) => error is OtlpExporter,
            },
            Err(variable) => result matches Err(Error::MissingEnvironmentVariable(name)) && name@
                == variable,
        },
{
    match TracerBuilder::new(service_name).from_env(env) {
        Ok(builder) => builder.install(),
        Err(error) => Err(error),
    }
}

/// Settles a tracer with Langfuse backend using explicit configuration:
/// the base URL of the Langfuse instance and the two keys.
pub fn init_tracer(service_name: &str, host: &str, public_key: &str, secret_key: &str) -> (result:
    Result<TracerInstallation, Error>)
    ensures
        match result {
            Ok(installation) => views(installation.resource_attributes@) == seq![
                text_attribute(crate::builder::SERVICE_NAME_KEY@, service_name@),
            ] && installation.detect_resources,
            Err(error) => error is OtlpExporter,
        },
{
    TracerBuilder::new(service_name).with_host(host).with_credentials(
        public_key,
        secret_key,
    ).install()
}

/// With the endpoint and the authorization set, what `install` hands to
/// the OTLP builder is complete: the endpoint that was set, and headers
/// with exactly one authorization, under the canonical name, whose value is
/// the one that was set, whatever the additional headers hold.
pub proof fn lemma_install_hands_set_authorization(builder: TracerBuilderView)
    requires
        missing_for_install(builder) is None,
    ensures
        config_of(exporter_of(builder)) matches Ok((endpoint, headers)) && Some(endpoint)
            == builder.endpoint && lookup(headers, AUTHORIZATION@) == builder.auth_header
            && single_authorization(headers),
{
    let handed = exporter_of(builder);
    lemma_set_authorization_wins(handed.headers, builder.auth_header->0);
    lemma_resolved_single_authorization(handed.headers, handed.auth_header);
}

} // verus!
