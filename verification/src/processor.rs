//! Span processing for the Langfuse integration.
//!
//! The processor of this module settles what a span gets at its start, the
//! attributes of the tracing context, and how spans are batched. Running
//! the batches is the work of the SDK, which the caller sets up from what
//! the processor holds.

use crate::builder::{default_batch_config, duration_from_secs, BatchConfig};
use crate::context::{context_attributes, TracingContext, TracingContextView};
use crate::key_value::{append_attributes, views, KeyValue};
use crate::mapper::{AttributeMapper, GenAIAttributeMapper};
use crate::span_ext::SpanAttributes;
use std::time::Duration;
use vstd::prelude::*;

verus! {

/// A span processor that enriches spans with the Langfuse context and holds
/// the mapper for their attributes.
pub struct LangfuseSpanProcessor<E, M: AttributeMapper> {
    exporter: E,
    context: TracingContext,
    mapper: M,
    batch_config: BatchConfig,
}

/// What a [`LangfuseSpanProcessor`] holds.
pub struct LangfuseSpanProcessorView<E, M> {
    /// The exporter that the batches go to.
    pub exporter: E,
    /// The tracing context.
    pub context: TracingContextView,
    /// The attribute mapper.
    pub mapper: M,
    /// How spans are batched.
    pub batch_config: BatchConfig,
}

impl<E, M: AttributeMapper> View for LangfuseSpanProcessor<E, M> {
    type V = LangfuseSpanProcessorView<E, M>;

    closed spec fn view(&self) -> LangfuseSpanProcessorView<E, M> {
        LangfuseSpanProcessorView {
            exporter: self.exporter,
            context: self.context@,
            mapper: self.mapper,
            batch_config: self.batch_config,
        }
    }
}

/// The empty tracing context.
pub open spec fn empty_context() -> TracingContextView {
    TracingContextView { attributes: Seq::empty(), parent_span: None }
}

/// The context of a builder: the one that was set, or the empty one.
pub open spec fn context_or_empty(context: Option<TracingContextView>) -> TracingContextView {
    match context {
        Some(context) => context,
        None => empty_context(),
    }
}

impl<E> LangfuseSpanProcessor<E, GenAIAttributeMapper> {
    /// Creates a new span processor with a builder for configuration.
    pub fn builder(exporter: E) -> (builder: LangfuseSpanProcessorBuilder<E, GenAIAttributeMapper>)
        ensures
            builder@.exporter == exporter,
            builder@.context is None,
            builder@.mapper@ == crate::mapper::default_rules(),
            builder@.batch_config == default_batch_config(),
    {
        LangfuseSpanProcessorBuilder::new(exporter)
    }
}

impl<E, M: AttributeMapper> LangfuseSpanProcessor<E, M> {
    /// Creates a new Langfuse span processor, with the default batching.
    pub fn new(exporter: E, context: TracingContext, mapper: M) -> (processor: Self)
        ensures
            processor@ == (LangfuseSpanProcessorView {
                exporter,
                context: context@,
                mapper,
                batch_config: default_batch_config(),
            }),
    {
        LangfuseSpanProcessor { exporter, context, mapper, batch_config: BatchConfig::default() }
    }

    /// At the start of a span: the attributes of the context are set on it,
    /// behind those that it has.
    pub fn on_start(&self, span: &mut SpanAttributes)
        ensures
            final(span)@ == old(span)@ + context_attributes(self@.context.attributes),
    {
        append_attributes(&mut span.attributes, self.context.to_otel_attributes());
    }

    /// The tracing context of the processor.
    pub fn context(&self) -> (context: &TracingContext)
        ensures
            context@ == self@.context,
    {
        &self.context
    }

    /// The attribute mapper of the processor.
    pub fn mapper(&self) -> (mapper: &M)
        ensures
            *mapper == self@.mapper,
    {
        &self.mapper
    }

    /// How the processor batches spans.
    pub fn batch_config(&self) -> (config: BatchConfig)
        ensures
            config == self@.batch_config,
    {
        self.batch_config
    }

    /// The exporter of the processor.
    pub fn into_exporter(self) -> (exporter: E)
        ensures
            exporter == self@.exporter,
    {
        self.exporter
    }

    /// The exporter and the mapper of the processor.
    pub fn into_parts(self) -> (parts: (E, M))
        ensures
            parts.0 == self@.exporter,
            parts.1 == self@.mapper,
    {
        (self.exporter, self.mapper)
    }
}

/// Builder for configuring a LangfuseSpanProcessor.
pub struct LangfuseSpanProcessorBuilder<E, M: AttributeMapper> {
    exporter: E,
    context: Option<TracingContext>,
    mapper: M,
    max_queue_size: usize,
    max_export_batch_size: usize,
    scheduled_delay: Duration,
    max_export_timeout: Duration,
}

/// What a [`LangfuseSpanProcessorBuilder`] holds.
pub struct LangfuseSpanProcessorBuilderView<E, M> {
    /// The exporter that the batches go to.
    pub exporter: E,
    /// The tracing context, where one was set.
    pub context: Option<TracingContextView>,
    /// The attribute mapper.
    pub mapper: M,
    /// How spans are batched.
    pub batch_config: BatchConfig,
}

impl<E, M: AttributeMapper> View for LangfuseSpanProcessorBuilder<E, M> {
    type V = LangfuseSpanProcessorBuilderView<E, M>;

    closed spec fn view(&self) -> LangfuseSpanProcessorBuilderView<E, M> {
        LangfuseSpanProcessorBuilderView {
            exporter: self.exporter,
            context: crate::assoc::option_view(self.context),
            mapper: self.mapper,
            batch_config: BatchConfig {
                max_queue_size: self.max_queue_size,
                max_export_batch_size: self.max_export_batch_size,
                scheduled_delay: self.scheduled_delay,
                max_export_timeout: self.max_export_timeout,
            },
        }
    }
}

impl<E> LangfuseSpanProcessorBuilder<E, GenAIAttributeMapper> {
    /// Creates a new builder: no context, the GenAI mapper with its default
    /// rules, and the default batching.
    pub fn new(exporter: E) -> (builder: Self)
        ensures
            builder@.exporter == exporter,
            builder@.context is None,
            builder@.mapper@ == crate::mapper::default_rules(),
            builder@.batch_config == default_batch_config(),
    {
        LangfuseSpanProcessorBuilder {
            exporter,
            context: None,
            mapper: GenAIAttributeMapper::new(),
            max_queue_size: 2048,
            max_export_batch_size: 512,
            scheduled_delay: duration_from_secs(5),
            max_export_timeout: duration_from_secs(30),
        }
    }
}

impl<E, M: AttributeMapper> LangfuseSpanProcessorBuilder<E, M> {
    /// Sets the tracing context.
    pub fn with_context(self, context: TracingContext) -> (builder: Self)
        ensures
            builder@ == (LangfuseSpanProcessorBuilderView { context: Some(context@), ..self@ }),
    {
        let mut builder = self;
        builder.context = Some(context);
        builder
    }

    /// Sets the attribute mapper.
    pub fn with_mapper<N: AttributeMapper>(self, mapper: N) -> (builder:
        LangfuseSpanProcessorBuilder<E, N>)
        ensures
            builder@.mapper == mapper,
            builder@.exporter == self@.exporter,
            builder@.context == self@.context,
            builder@.batch_config == self@.batch_config,
    {
        LangfuseSpanProcessorBuilder {
            exporter: self.exporter,
            context: self.context,
            mapper,
            max_queue_size: self.max_queue_size,
            max_export_batch_size: self.max_export_batch_size,
            scheduled_delay: self.scheduled_delay,
            max_export_timeout: self.max_export_timeout,
        }
    }

    /// Sets the maximum queue size.
    pub fn with_max_queue_size(self, size: usize) -> (builder: Self)
        ensures
            builder@ == (LangfuseSpanProcessorBuilderView {
                batch_config: BatchConfig { max_queue_size: size, ..self@.batch_config },
                ..self@
            }),
    {
        let mut builder = self;
        builder.max_queue_size = size;
        builder
    }

    /// Sets the maximum export batch size.
    pub fn with_max_export_batch_size(self, size: usize) -> (builder: Self)
        ensures
            builder@ == (LangfuseSpanProcessorBuilderView {
                batch_config: BatchConfig { max_export_batch_size: size, ..self@.batch_config },
                ..self@
            }),
    {
        let mut builder = self;
        builder.max_export_batch_size = size;
        builder
    }

    /// Sets the delay between exports.
    pub fn with_scheduled_delay(self, delay: Duration) -> (builder: Self)
        ensures
            builder@ == (LangfuseSpanProcessorBuilderView {
                batch_config: BatchConfig { scheduled_delay: delay, ..self@.batch_config },
                ..self@
            }),
    {
        let mut builder = self;
        builder.scheduled_delay = delay;
        builder
    }

    /// Sets the maximum export timeout.
    pub fn with_max_export_timeout(self, timeout: Duration) -> (builder: Self)
        ensures
            builder@ == (LangfuseSpanProcessorBuilderView {
                batch_config: BatchConfig { max_export_timeout: timeout, ..self@.batch_config },
                ..self@
            }),
    {
        let mut builder = self;
        builder.max_export_timeout = timeout;
        builder
    }

    /// Builds the span processor: with the context that was set, or an
    /// empty one.
    pub fn build(self) -> (processor: LangfuseSpanProcessor<E, M>)
        ensures
            processor@ == (LangfuseSpanProcessorView {
                exporter: self@.exporter,
                context: context_or_empty(self@.context),
                mapper: self@.mapper,
                batch_config: self@.batch_config,
            }),
    {
        let context = match self.context {
            Some(context) => context,
            None => TracingContext::new(),
        };
        LangfuseSpanProcessor {
            exporter: self.exporter,
            context,
            mapper: self.mapper,
            batch_config: BatchConfig {
                max_queue_size: self.max_queue_size,
                max_export_batch_size: self.max_export_batch_size,
                scheduled_delay: self.scheduled_delay,
                max_export_timeout: self.max_export_timeout,
            },
        }
    }
}

/// A wrapper exporter that applies attribute mapping before export.
pub struct MappingExporter<E, M: AttributeMapper> {
    inner: E,
    mapper: M,
}

impl<E, M: AttributeMapper> MappingExporter<E, M> {
    /// The inner exporter.
    pub closed spec fn inner(&self) -> E {
        self.inner
    }

    /// The mapper.
    pub closed spec fn mapper(&self) -> M {
        self.mapper
    }

    /// Creates a new mapping exporter.
    pub fn new(inner: E, mapper: M) -> (exporter: Self)
        ensures
            exporter.inner() == inner,
            exporter.mapper() == mapper,
    {
        MappingExporter { inner, mapper }
    }

    /// The attributes of a span as they are exported: mapped to Langfuse,
    /// then enriched. `None` where the mapper cannot enrich the mapped
    /// attributes.
    pub fn export_attributes(&self, attributes: &[KeyValue]) -> (mapped: Option<Vec<KeyValue>>)
        ensures
            match mapped {
                Some(list) => self.mapper().can_enrich(
                    self.mapper().langfuse_of(views(attributes@)),
                ) && views(list@) == self.mapper().enriched(
                    self.mapper().langfuse_of(views(attributes@)),
                ),
                None => !self.mapper().can_enrich(self.mapper().langfuse_of(views(attributes@))),
            },
    {
        let mapped = self.mapper.map_to_langfuse(attributes);
        if self.mapper.can_enrich_attributes(mapped.as_slice()) {
            Some(self.mapper.enrich_attributes(mapped.as_slice()))
        } else {
            None
        }
    }

    /// The inner exporter.
    pub fn get_ref(&self) -> (inner: &E)
        ensures
            *inner == self.inner(),
    {
        &self.inner
    }
}

} // verus!
