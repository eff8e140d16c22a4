//! Builder for tracers with Langfuse integration.
//!
//! The builder collects what a tracer needs and settles it: the attributes
//! of the resource, the exporter, the batching. Creating the tracer provider
//! from what `build` returns is left to the caller, who has the runtime.

use crate::assoc::{entry_views, upsert};
use crate::context::{context_attributes, TracingContext, TracingContextView};
use crate::error::Error;
use crate::exporter::{config_of, ExporterBuilder, ExporterBuilderView};
use crate::headers::{clone_headers, merged, HeaderViews};
use crate::json::{JsonValue, JsonView};
use crate::key_value::{append_attributes, text_attribute, views, KeyValue, KeyValueView};
use crate::mapper::{AttributeMapper, GenAIAttributeMapper};
use crate::text::concat;
use opentelemetry_otlp::SpanExporter;
use opentelemetry_sdk::trace::Sampler;
use std::time::Duration;
use vstd::prelude::*;

verus! {

#[verifier::external_type_specification]
#[verifier::external_body]
pub struct ExSampler(opentelemetry_sdk::trace::Sampler);

/// The span of time of `secs` whole seconds.
pub uninterp spec fn seconds(secs: u64) -> Duration;

/// `Duration::from_secs`: the span of time of `secs` whole seconds.
#[verifier::external_body]
pub(crate) fn duration_from_secs(secs: u64) -> (duration: Duration)
    ensures
        duration == seconds(secs),
{
    Duration::from_secs(secs)
}

/// Errors that can occur when building a Langfuse tracer.
#[derive(Debug)]
pub enum BuilderError {
    /// Error from OpenTelemetry.
    OpenTelemetry(opentelemetry_sdk::trace::TraceError),
    /// Configuration error.
    Configuration(String),
    /// Missing required configuration.
    MissingConfiguration(String),
}

/// Result type for builder operations.
pub type BuilderResult<T> = Result<T, BuilderError>;

/// Default Langfuse OTLP endpoint.
pub const DEFAULT_LANGFUSE_ENDPOINT: &'static str = "https://cloud.langfuse.com/api/public/otel";

/// The service name of a new builder.
pub const DEFAULT_SERVICE_NAME: &'static str = "langfuse-otel";

/// The name of the header that carries the Langfuse API key.
pub const API_KEY_HEADER: &'static str = "x-langfuse-api-key";

/// The key of the resource attribute that names the service.
pub const SERVICE_NAME_KEY: &'static str = "service.name";

/// The key of the resource attribute that holds the version of the service.
pub const SERVICE_VERSION_KEY: &'static str = "service.version";

/// Configuration for batch processing.
#[derive(Clone, Copy, Debug)]
pub struct BatchConfig {
    /// Maximum queue size for pending spans.
    pub max_queue_size: usize,
    /// Maximum batch size for export.
    pub max_export_batch_size: usize,
    /// Delay between export attempts.
    pub scheduled_delay: Duration,
    /// Maximum timeout for export.
    pub max_export_timeout: Duration,
}

/// The batch configuration of a new builder: a queue of 2048 spans, batches
/// of 512, an export every 5 seconds, 30 seconds for an export.
pub open spec fn default_batch_config() -> BatchConfig {
    BatchConfig {
        max_queue_size: 2048,
        max_export_batch_size: 512,
        scheduled_delay: seconds(5),
        max_export_timeout: seconds(30),
    }
}

impl Default for BatchConfig {
    fn default() -> (config: Self)
        ensures
            config == default_batch_config(),
    {
        BatchConfig {
            max_queue_size: 2048,
            max_export_batch_size: 512,
            scheduled_delay: duration_from_secs(5),
            max_export_timeout: duration_from_secs(30),
        }
    }
}

/// The sampling strategy of a tracer.
#[derive(Debug)]
pub enum Sampling {
    /// Every trace is sampled.
    AlwaysOn,
    /// A sampler of the SDK decides.
    Custom(opentelemetry_sdk::trace::Sampler),
}

impl BuilderError {
    /// The fixed words with which the message of this kind of error begins.
    pub open spec fn prefix(&self) -> Seq<char> {
        match self {
            BuilderError::OpenTelemetry(_) => "OpenTelemetry error: "@,
            BuilderError::Configuration(_) => "Configuration error: "@,
            BuilderError::MissingConfiguration(_) => "Missing required configuration: "@,
        }
    }

    /// A message for people: the kind of error, then what it is about.
    pub fn message(&self) -> (text: String)
        ensures
            self.prefix().is_prefix_of(text@),
            self matches BuilderError::Configuration(reason) ==> text@ == self.prefix() + reason@,
            self matches BuilderError::MissingConfiguration(what) ==> text@ == self.prefix()
                + what@,
    {
        match self {
            BuilderError::OpenTelemetry(inner) => {
                let detail = crate::error::trace_error_text(inner);
                concat("OpenTelemetry error: ", detail.as_str())
            },
            BuilderError::Configuration(reason) => concat(
                "Configuration error: ",
                reason.as_str(),
            ),
            BuilderError::MissingConfiguration(what) => concat(
                "Missing required configuration: ",
                what.as_str(),
            ),
        }
    }
}

/// Builder for creating a Langfuse-integrated OpenTelemetry tracer.
pub struct LangfuseTracerBuilder<M: AttributeMapper> {
    endpoint: String,
    context: TracingContext,
    mapper: M,
    service_name: String,
    service_version: Option<String>,
    headers: Vec<(String, String)>,
    timeout: Duration,
    sampler: Sampling,
    batch_config: BatchConfig,
}

/// What a [`LangfuseTracerBuilder`] holds.
pub struct LangfuseTracerBuilderView<M> {
    /// The OTLP endpoint.
    pub endpoint: Seq<char>,
    /// The tracing context.
    pub context: TracingContextView,
    /// The attribute mapper.
    pub mapper: M,
    /// The service name.
    pub service_name: Seq<char>,
    /// The service version.
    pub service_version: Option<Seq<char>>,
    /// The HTTP headers, in the order in which they were added.
    pub headers: HeaderViews,
    /// The export timeout.
    pub timeout: Duration,
    /// The sampling strategy.
    pub sampler: Sampling,
    /// The batch configuration.
    pub batch_config: BatchConfig,
}

/// What `build` settles: everything that a tracer provider is created from.
pub struct TracerSetup<M: AttributeMapper> {
    /// The attributes of the resource: the service, then the context.
    pub resource_attributes: Vec<KeyValue>,
    /// The exporter that sends the spans.
    pub exporter: SpanExporter,
    /// The tracing context for the span processor.
    pub context: TracingContext,
    /// The attribute mapper for the span processor.
    pub mapper: M,
    /// The name under which the tracer is obtained.
    pub service_name: String,
    /// The sampling strategy.
    pub sampler: Sampling,
    /// The batch configuration.
    pub batch_config: BatchConfig,
}

impl<M: AttributeMapper> View for LangfuseTracerBuilder<M> {
    type V = LangfuseTracerBuilderView<M>;

    closed spec fn view(&self) -> LangfuseTracerBuilderView<M> {
        LangfuseTracerBuilderView {
            endpoint: self.endpoint@,
            context: self.context@,
            mapper: self.mapper,
            service_name: self.service_name@,
            service_version: crate::assoc::option_view(self.service_version),
            headers: entry_views(self.headers@),
            timeout: self.timeout,
            sampler: self.sampler,
            batch_config: self.batch_config,
        }
    }
}

/// The attributes of the resource of a tracer: the name of the service,
/// its version where one was set, then the attributes of the context.
pub open spec fn resource_attributes(
    service_name: Seq<char>,
    service_version: Option<Seq<char>>,
    context: TracingContextView,
) -> Seq<KeyValueView> {
    let service = match service_version {
        Some(version) => seq![
            text_attribute(SERVICE_NAME_KEY@, service_name),
            text_attribute(SERVICE_VERSION_KEY@, version),
        ],
        None => seq![text_attribute(SERVICE_NAME_KEY@, service_name)],
    };
    service + context_attributes(context.attributes)
}

/// The exporter builder that a tracer builder sets up: the endpoint, the
/// timeout, and the headers set one after the other.
pub open spec fn exporter_of<M>(builder: LangfuseTracerBuilderView<M>) -> ExporterBuilderView {
    ExporterBuilderView {
        endpoint: Some(builder.endpoint),
        auth_header: None,
        timeout: Some(builder.timeout),
        headers: merged(Seq::empty(), builder.headers),
        http_client: None,
    }
}

impl LangfuseTracerBuilder<GenAIAttributeMapper> {
    /// Creates a new builder: the endpoint of the Langfuse cloud, an empty
    /// context, the GenAI mapper with its default rules, the default
    /// service name, a timeout of 10 seconds, every trace sampled, and the
    /// default batching.
    pub fn new() -> (builder: Self)
        ensures
            builder@.endpoint == DEFAULT_LANGFUSE_ENDPOINT@,
            builder@.context.attributes == Seq::<(Seq<char>, JsonView)>::empty(),
            builder@.context.parent_span is None,
            builder@.mapper@ == crate::mapper::default_rules(),
            builder@.service_name == DEFAULT_SERVICE_NAME@,
            builder@.service_version is None,
            builder@.headers == Seq::<(Seq<char>, Seq<char>)>::empty(),
            builder@.timeout == seconds(10),
            builder@.sampler is AlwaysOn,
            builder@.batch_config == default_batch_config(),
    {
        let headers: Vec<(String, String)> = Vec::new();
        assert(entry_views(headers@) =~= Seq::<(Seq<char>, Seq<char>)>::empty());
        LangfuseTracerBuilder {
            endpoint: DEFAULT_LANGFUSE_ENDPOINT.to_owned(),
            context: TracingContext::new(),
            mapper: GenAIAttributeMapper::new(),
            service_name: DEFAULT_SERVICE_NAME.to_owned(),
            service_version: None,
            headers,
            timeout: duration_from_secs(10),
            sampler: Sampling::AlwaysOn,
            batch_config: BatchConfig::default(),
        }
    }
}

impl<M: AttributeMapper> LangfuseTracerBuilder<M> {
    /// Sets the OTLP endpoint.
    pub fn with_endpoint(self, endpoint: &str) -> (builder: Self)
        ensures
            builder@ == (LangfuseTracerBuilderView { endpoint: endpoint@, ..self@ }),
    {
        let mut builder = self;
        builder.endpoint = endpoint.to_owned();
        builder
    }

    /// Sets the tracing context.
    pub fn with_context(self, context: TracingContext) -> (builder: Self)
        ensures
            builder@ == (LangfuseTracerBuilderView { context: context@, ..self@ }),
    {
        let mut builder = self;
        builder.context = context;
        builder
    }

    /// Sets a custom attribute mapper.
    pub fn with_mapper<N: AttributeMapper>(self, mapper: N) -> (builder: LangfuseTracerBuilder<N>)
        ensures
            builder@.mapper == mapper,
            builder@.endpoint == self@.endpoint,
            builder@.context == self@.context,
            builder@.service_name == self@.service_name,
            builder@.service_version == self@.service_version,
            builder@.headers == self@.headers,
            builder@.timeout == self@.timeout,
            builder@.sampler == self@.sampler,
            builder@.batch_config == self@.batch_config,
    {
        LangfuseTracerBuilder {
            endpoint: self.endpoint,
            context: self.context,
            mapper,
            service_name: self.service_name,
            service_version: self.service_version,
            headers: self.headers,
            timeout: self.timeout,
            sampler: self.sampler,
            batch_config: self.batch_config,
        }
    }

    /// Sets the service name.
    pub fn with_service_name(self, name: &str) -> (builder: Self)
        ensures
            builder@ == (LangfuseTracerBuilderView { service_name: name@, ..self@ }),
    {
        let mut builder = self;
        builder.service_name = name.to_owned();
        builder
    }

    /// Sets the service version.
    pub fn with_service_version(self, version: &str) -> (builder: Self)
        ensures
            builder@ == (LangfuseTracerBuilderView { service_version: Some(version@), ..self@ }),
    {
        let mut builder = self;
        builder.service_version = Some(version.to_owned());
        builder
    }

    /// Adds an HTTP header to be sent with OTLP requests.
    pub fn with_header(self, key: &str, value: &str) -> (builder: Self)
        ensures
            builder@ == (LangfuseTracerBuilderView {
                headers: self@.headers.push((key@, value@)),
                ..self@
            }),
    {
        let mut builder = self;
        let ghost before = entry_views(builder.headers@);
        builder.headers.push((key.to_owned(), value.to_owned()));
        proof {
            assert(entry_views(builder.headers@) =~= before.push((key@, value@)));
        }
        builder
    }

    /// Sets the Langfuse API key as a header.
    pub fn with_api_key(self, api_key: &str) -> (builder: Self)
        ensures
            builder@ == (LangfuseTracerBuilderView {
                headers: self@.headers.push((API_KEY_HEADER@, api_key@)),
                ..self@
            }),
    {
        self.with_header(API_KEY_HEADER, api_key)
    }

    /// Sets the export timeout.
    pub fn with_timeout(self, timeout: Duration) -> (builder: Self)
        ensures
            builder@ == (LangfuseTracerBuilderView { timeout, ..self@ }),
    {
        let mut builder = self;
        builder.timeout = timeout;
        builder
    }

    /// Sets the sampling strategy.
    pub fn with_sampler(self, sampler: Sampler) -> (builder: Self)
        ensures
            builder@ == (LangfuseTracerBuilderView { sampler: Sampling::Custom(sampler), ..self@ }),
    {
        let mut builder = self;
        builder.sampler = Sampling::Custom(sampler);
        builder
    }

    /// Configures batch processing.
    pub fn with_batch_config(self, config: BatchConfig) -> (builder: Self)
        ensures
            builder@ == (LangfuseTracerBuilderView { batch_config: config, ..self@ }),
    {
        let mut builder = self;
        builder.batch_config = config;
        builder
    }

    /// Sets the session ID in the context.
    pub fn with_session(self, session_id: &str) -> (builder: Self)
        ensures
            builder@ == (LangfuseTracerBuilderView {
                context: TracingContextView {
                    attributes: upsert(
                        self@.context.attributes,
                        crate::attributes::LangfuseAttributes::TRACE_SESSION_ID@,
                        JsonView::String(session_id@),
                    ),
                    ..self@.context
                },
                ..self@
            }),
    {
        let LangfuseTracerBuilder {
            endpoint,
            context,
            mapper,
            service_name,
            service_version,
            headers,
            timeout,
            sampler,
            batch_config,
        } = self;
        LangfuseTracerBuilder {
            endpoint,
            context: context.with_session(session_id),
            mapper,
            service_name,
            service_version,
            headers,
            timeout,
            sampler,
            batch_config,
        }
    }

    /// Sets the user ID in the context.
    pub fn with_user(self, user_id: &str) -> (builder: Self)
        ensures
            builder@ == (LangfuseTracerBuilderView {
                context: TracingContextView {
                    attributes: upsert(
                        self@.context.attributes,
                        crate::attributes::LangfuseAttributes::TRACE_USER_ID@,
                        JsonView::String(user_id@),
                    ),
                    ..self@.context
                },
                ..self@
            }),
    {
        let LangfuseTracerBuilder {
            endpoint,
            context,
            mapper,
            service_name,
            service_version,
            headers,
            timeout,
            sampler,
            batch_config,
        } = self;
        LangfuseTracerBuilder {
            endpoint,
            context: context.with_user(user_id),
            mapper,
            service_name,
            service_version,
            headers,
            timeout,
            sampler,
            batch_config,
        }
    }

    /// Adds metadata to the context.
    pub fn with_metadata(self, key: &str, value: JsonValue) -> (builder: Self)
        ensures
            builder@ == (LangfuseTracerBuilderView {
                context: TracingContextView {
                    attributes: upsert(
                        self@.context.attributes,
                        crate::context::METADATA_KEY_PREFIX@ + key@,
                        value@,
                    ),
                    ..self@.context
                },
                ..self@
            }),
    {
        let LangfuseTracerBuilder {
            endpoint,
            context,
            mapper,
            service_name,
            service_version,
            headers,
            timeout,
            sampler,
            batch_config,
        } = self;
        LangfuseTracerBuilder {
            endpoint,
            context: context.with_metadata(key, value),
            mapper,
            service_name,
            service_version,
            headers,
            timeout,
            sampler,
            batch_config,
        }
    }

    /// The endpoint that was set.
    pub fn endpoint(&self) -> (endpoint: &String)
        ensures
            endpoint@ == self@.endpoint,
    {
        &self.endpoint
    }

    /// The service name that was set.
    pub fn service_name(&self) -> (name: &String)
        ensures
            name@ == self@.service_name,
    {
        &self.service_name
    }

    /// The service version that was set.
    pub fn service_version(&self) -> (version: &Option<String>)
        ensures
            crate::assoc::option_view(*version) == self@.service_version,
    {
        &self.service_version
    }

    /// The timeout that was set.
    pub fn timeout(&self) -> (timeout: Duration)
        ensures
            timeout == self@.timeout,
    {
        self.timeout
    }

    /// The headers that were added.
    pub fn headers(&self) -> (headers: &Vec<(String, String)>)
        ensures
            entry_views(headers@) == self@.headers,
    {
        &self.headers
    }

    /// The sampling strategy that was set.
    pub fn sampler(&self) -> (sampler: &Sampling)
        ensures
            *sampler == self@.sampler,
    {
        &self.sampler
    }

    /// The batch configuration that was set.
    pub fn batch_config(&self) -> (config: BatchConfig)
        ensures
            config == self@.batch_config,
    {
        self.batch_config
    }

    /// The error of a tracer builder for an error of the exporter: a
    /// configuration error with the message of that error.
    pub fn configuration_error(error: &Error) -> (result: BuilderError)
        ensures
            result matches BuilderError::Configuration(reason) && error.prefix().is_prefix_of(
                reason@,
            ),
            error matches Error::MissingConfiguration(what) ==> result
                matches BuilderError::Configuration(reason) && reason@ == error.prefix() + what@,
    {
        BuilderError::Configuration(error.message())
    }

    /// The exporter builder that `build` uses: with the endpoint, the
    /// timeout, and the headers set one after the other.
    pub fn exporter_builder(&self) -> (builder: ExporterBuilder)
        ensures
            builder@ == exporter_of(self@),
    {
        ExporterBuilder::new().with_endpoint(self.endpoint.as_str()).with_timeout(
            self.timeout,
        ).with_headers(clone_headers(&self.headers))
    }

    /// Builds what the tracer is created from.
    ///
    /// The exporter is built from what `exporter_builder` returns. The
    /// headers must hold an authorization: without one the result is a
    /// configuration error that says so, and where `opentelemetry_otlp`
    /// cannot build the exporter it is a configuration error with the
    /// message of the exporter's error.
    pub fn build(self) -> (result: BuilderResult<TracerSetup<M>>)
        ensures
            match config_of(exporter_of(self@)) {
                Ok(_) => match result {
                    Ok(setup) => views(setup.resource_attributes@) == resource_attributes(
                        self@.service_name,
                        self@.service_version,
                        self@.context,
                    ) && setup.context@ == self@.context && setup.mapper == self@.mapper
                        && setup.service_name@ == self@.service_name && setup.sampler
                        == self@.sampler && setup.batch_config == self@.batch_config,
                    Err(error) => error matches BuilderError::Configuration(reason)
                        && "OTLP exporter error: "@.is_prefix_of(reason@),
                },
                Err(missing) => result matches Err(BuilderError::Configuration(reason)) && reason@
                    == "Missing configuration: "@ + missing,
            },
    {
        let exporter_builder = self.exporter_builder();
        let LangfuseTracerBuilder {
            endpoint,
            context,
            mapper,
            service_name,
            service_version,
            headers,
            timeout,
            sampler,
            batch_config,
        } = self;
        let mut attributes: Vec<KeyValue> = Vec::new();
        attributes.push(KeyValue::text(SERVICE_NAME_KEY, service_name.as_str()));
        match &service_version {
            Some(version) => {
                attributes.push(KeyValue::text(SERVICE_VERSION_KEY, version.as_str()));
            },
            None => {},
        }
        append_attributes(&mut attributes, context.to_otel_attributes());
        match exporter_builder.build() {
            Ok(exporter) => Ok(
                TracerSetup {
                    resource_attributes: attributes,
                    exporter,
                    context,
                    mapper,
                    service_name,
                    sampler,
                    batch_config,
                },
            ),
            Err(error) => Err(Self::configuration_error(&error)),
        }
    }
}

/// Simplified builder function: a new builder with its defaults.
pub fn builder() -> (builder: LangfuseTracerBuilder<GenAIAttributeMapper>)
    ensures
        builder@.endpoint == DEFAULT_LANGFUSE_ENDPOINT@,
        builder@.service_name == DEFAULT_SERVICE_NAME@,
        builder@.service_version is None,
        builder@.headers == Seq::<(Seq<char>, Seq<char>)>::empty(),
        builder@.timeout == seconds(10),
        builder@.sampler is AlwaysOn,
        builder@.batch_config == default_batch_config(),
{
    LangfuseTracerBuilder::new()
}

/// Quick setup function for common use cases: the defaults with a service
/// name and an API key.
///
/// The API key travels in a header of its own, which is no authorization,
/// so the exporter cannot be built: the result is the configuration error
/// that says so.
pub fn init_tracer(service_name: &str, api_key: &str) -> (result: BuilderResult<
    TracerSetup<GenAIAttributeMapper>,
>)
    ensures
        result matches Err(BuilderError::Configuration(reason)) && reason@
            == "Missing configuration: "@ + crate::exporter::MISSING_AUTHORIZATION@,
{
    let tracer_builder = builder().with_service_name(service_name).with_api_key(api_key);
    proof {
        lemma_api_key_is_no_authorization(api_key@);
    }
    tracer_builder.build()
}

/// A header for the API key alone gives no authorization.
pub proof fn lemma_api_key_is_no_authorization(api_key: Seq<char>)
    ensures
        crate::headers::resolved_headers(
            merged(Seq::empty(), Seq::<(Seq<char>, Seq<char>)>::empty().push((API_KEY_HEADER@, api_key))),
            None,
        ) is None,
{
    reveal_strlit("x-langfuse-api-key");
    reveal_strlit("Authorization");
    let headers = Seq::<(Seq<char>, Seq<char>)>::empty().push((API_KEY_HEADER@, api_key));
    let set = merged(Seq::empty(), headers);
    assert(headers.drop_last() =~= Seq::empty());
    assert(merged(Seq::empty(), headers.drop_last()) =~= Seq::<(Seq<char>, Seq<char>)>::empty());
    assert(!crate::assoc::contains_key(
        Seq::<(Seq<char>, Seq<char>)>::empty(),
        API_KEY_HEADER@,
    ));
    assert(set =~= headers);
    assert(!crate::headers::has_authorization(set)) by {
        assert(crate::text::lower(API_KEY_HEADER@).len() != crate::text::lower(
            crate::headers::AUTHORIZATION@,
        ).len());
    }
    crate::headers::lemma_normalized_authorization(set);
}

} // verus!
