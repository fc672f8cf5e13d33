//! Export pipeline builder: per-kind exporters wrapped in batching processors
//! and providers, aggregated into one handle with timeout-bounded shutdown.

use vstd::prelude::*;
use std::collections::HashMap;
use vstd::string::StrSliceExecFns;
use vstd::string::StringExecFns;
use opentelemetry_otlp::WithExportConfig;
use opentelemetry_otlp::WithTonicConfig;
use opentelemetry_otlp::WithHttpConfig;
use opentelemetry_sdk::trace::Sampler;
use opentelemetry_otlp::Protocol as OtlpProtocol;
use opentelemetry_sdk::metrics::Temporality as OtelTemporality;

verus! {

/// One of the three independently configurable telemetry categories.
#[derive(Clone, Copy, PartialEq, Eq, Structural, Debug)]
pub enum TelemetryKind {
    /// Log records.
    Logs,
    /// Trace spans.
    Trace,
    /// Metric points.
    Metrics,
}

/// A fatal configuration error raised while assembling the pipeline.
#[derive(Clone, PartialEq, Eq, Debug)]
pub enum ConfigError {
    /// The kind was already enabled on this builder.
    AlreadyEnabled(TelemetryKind),
    /// The selected protocol does not support this kind.
    UnsupportedProtocol,
    /// A header key or value cannot be carried by the transport; holds the key.
    InvalidHeader(String),
    /// The transport refused to construct the exporter; holds its message.
    ExporterBuild(String),
}

/// A failure reported by one kind's provider at shutdown.
#[derive(Clone, PartialEq, Eq, Debug)]
pub enum ExportError {
    /// The provider had already been shut down.
    AlreadyShutdown,
    /// The provider did not finish flushing within the limit.
    Timeout,
    /// A record held a value the sink cannot represent.
    Unsupported,
    /// Any other failure, with its message.
    Internal(String),
}

/// Per-kind shutdown failures; built only when at least one kind failed.
#[derive(Clone, PartialEq, Eq, Debug)]
pub struct ShutdownError {
    /// The logs provider's failure, if it failed.
    pub logs: Option<ExportError>,
    /// The trace provider's failure, if it failed.
    pub trace: Option<ExportError>,
    /// The metrics provider's failure, if it failed.
    pub metrics: Option<ExportError>,
}

/// Wire protocol selector for a destination.
#[derive(Clone, Copy, PartialEq, Eq, Structural, Debug)]
pub enum Protocol {
    /// gRPC transport; the endpoint is the URL as given.
    Grpc,
    /// HTTP transport with a binary body; a per-kind path suffix is appended.
    HttpBinary,
    /// HTTP transport with a JSON body; a per-kind path suffix is appended.
    HttpJson,
    /// The trace agent's own protocol; traces only.
    DatadogAgent,
}

/// Backend address and wire protocol.
#[derive(Clone, Debug)]
pub struct Destination {
    /// Protocol to reach the backend with.
    pub protocol: Protocol,
    /// Backend URL, taken verbatim for network protocols.
    pub url: String,
}

// ---------------------------------------------------------------------------
// Endpoint suffixing
// ---------------------------------------------------------------------------

/// `s` without its trailing slash, removed exactly once.
pub open spec fn trim_one_trailing_slash(s: Seq<char>) -> Seq<char> {
    if s.len() > 0 && s.last() == '/' {
        s.drop_last()
    } else {
        s
    }
}

/// The path suffix appended to an HTTP base URL for one kind.
pub open spec fn kind_suffix(kind: TelemetryKind) -> Seq<char> {
    match kind {
        TelemetryKind::Logs => "/logs"@,
        TelemetryKind::Trace => "/traces"@,
        TelemetryKind::Metrics => "/metrics"@,
    }
}

/// The exporter endpoint for one kind over HTTP: the base URL with one
/// trailing slash stripped, then the kind's path suffix.
pub open spec fn spec_kind_endpoint(url: Seq<char>, kind: TelemetryKind) -> Seq<char> {
    trim_one_trailing_slash(url) + kind_suffix(kind)
}

fn suffix_for(kind: TelemetryKind) -> (r: &'static str)
    ensures
        r@ == kind_suffix(kind),
{
    match kind {
        TelemetryKind::Logs => "/logs",
        TelemetryKind::Trace => "/traces",
        TelemetryKind::Metrics => "/metrics",
    }
}

/// Computes the per-kind HTTP exporter endpoint from the base URL.
pub fn kind_endpoint(url: &str, kind: TelemetryKind) -> (r: String)
    ensures
        r@ == spec_kind_endpoint(url@, kind),
{
    let n = url.unicode_len();
    let base = if n > 0 && url.get_char(n - 1) == '/' {
        url.substring_char(0, n - 1)
    } else {
        url.substring_char(0, n)
    };
    let suffix = suffix_for(kind);
    let mut out = String::from_str(base);
    out.append(suffix);
    proof {
        assert(base@ =~= trim_one_trailing_slash(url@));
    }
    out
}

// ---------------------------------------------------------------------------
// Trace settings
// ---------------------------------------------------------------------------

/// Scale of a sampling rate: a rate is given in millionths, so this value
/// stands for sampling everything.
pub const SAMPLE_RATE_SCALE: u32 = 1000000;

/// The provider default for every span limit; a limit is only applied to the
/// provider when it differs from this.
pub const DEFAULT_SPAN_LIMIT: u32 = 128;

/// Default export timeout, in milliseconds.
pub const DEFAULT_EXPORT_TIMEOUT_MILLIS: u64 = 5000;

/// Shutdown timeout used when the caller passes a zero limit, in milliseconds.
pub const DEFAULT_SHUTDOWN_TIMEOUT_MILLIS: u64 = 10000;

/// The most headers the builder hands to the gRPC transport: the transport's
/// header map has a hard capacity of 32768 entries and aborts when grown past
/// it, so the builder stays safely below half of it.
pub const MAX_TRANSPORT_HEADERS: usize = 16384;

/// Caps on what a single span may carry.
#[derive(Clone, Copy, PartialEq, Eq, Structural, Debug)]
pub struct SpanLimits {
    /// Max events added to a span.
    pub max_events_per_span: u32,
    /// Max attributes added to a span.
    pub max_attributes_per_span: u32,
    /// Max links added to a span.
    pub max_links_per_span: u32,
    /// Max attributes added to a link.
    pub max_attributes_per_link: u32,
    /// Max attributes added to an event.
    pub max_attributes_per_event: u32,
}

impl SpanLimits {
    /// Every limit at its provider default.
    pub open spec fn spec_default() -> SpanLimits {
        SpanLimits {
            max_events_per_span: DEFAULT_SPAN_LIMIT,
            max_attributes_per_span: DEFAULT_SPAN_LIMIT,
            max_links_per_span: DEFAULT_SPAN_LIMIT,
            max_attributes_per_link: DEFAULT_SPAN_LIMIT,
            max_attributes_per_event: DEFAULT_SPAN_LIMIT,
        }
    }

    /// Creates the default limits.
    pub fn new() -> (r: Self)
        ensures
            r == Self::spec_default(),
    {
        SpanLimits {
            max_events_per_span: DEFAULT_SPAN_LIMIT,
            max_attributes_per_span: DEFAULT_SPAN_LIMIT,
            max_links_per_span: DEFAULT_SPAN_LIMIT,
            max_attributes_per_link: DEFAULT_SPAN_LIMIT,
            max_attributes_per_event: DEFAULT_SPAN_LIMIT,
        }
    }
}

/// `rate` forced into `[0, SAMPLE_RATE_SCALE]`.
pub open spec fn clamped_rate(rate: i64) -> u32 {
    if rate < 0 {
        0
    } else if rate > SAMPLE_RATE_SCALE as i64 {
        SAMPLE_RATE_SCALE
    } else {
        rate as u32
    }
}

/// A sampling rate at or above the scale clamps like the scale itself, and a
/// rate at or below zero clamps like zero.
pub proof fn lemma_sample_rate_clamping(rate: i64)
    ensures
        rate >= SAMPLE_RATE_SCALE as i64 ==> clamped_rate(rate) == clamped_rate(
            SAMPLE_RATE_SCALE as i64,
        ),
        rate <= 0 ==> clamped_rate(rate) == clamped_rate(0),
{
}

/// Trace configuration: sampling policy and span limits.
#[derive(Clone, Copy, PartialEq, Eq, Structural, Debug)]
pub struct TraceSettings {
    /// Sampling rate in millionths of all traces, clamped to
    /// `[0, SAMPLE_RATE_SCALE]`.
    pub sample_rate: u32,
    /// Caps on what a single span may carry.
    pub limits: SpanLimits,
    /// Whether a parent trace's sampling decision wins.
    pub respect_parent: bool,
}

impl TraceSettings {
    /// Creates settings with the given sampling rate in millionths of all
    /// traces, clamped into `[0, SAMPLE_RATE_SCALE]`; the parent's decision is
    /// respected and every span limit is at its default.
    pub fn new(sample_rate: i64) -> (r: Self)
        ensures
            r.sample_rate == clamped_rate(sample_rate),
            r.respect_parent == true,
            r.limits == SpanLimits::spec_default(),
    {
        let clamped: u32 = if sample_rate < 0 {
            0
        } else if sample_rate > SAMPLE_RATE_SCALE as i64 {
            SAMPLE_RATE_SCALE
        } else {
            sample_rate as u32
        };
        TraceSettings { sample_rate: clamped, limits: SpanLimits::new(), respect_parent: true }
    }

    /// Specifies whether to respect a parent trace's sampling decision.
    pub fn with_respect_parent_sampling(self, value: bool) -> (r: Self)
        ensures
            r == (TraceSettings { respect_parent: value, ..self }),
    {
        TraceSettings { respect_parent: value, ..self }
    }

    /// The max events that can be added to a span.
    pub fn with_max_events_per_span(self, value: u32) -> (r: Self)
        ensures
            r == (TraceSettings {
                limits: SpanLimits { max_events_per_span: value, ..self.limits },
                ..self
            }),
    {
        TraceSettings { limits: SpanLimits { max_events_per_span: value, ..self.limits }, ..self }
    }

    /// The max attributes that can be added to a span.
    pub fn with_max_attributes_per_span(self, value: u32) -> (r: Self)
        ensures
            r == (TraceSettings {
                limits: SpanLimits { max_attributes_per_span: value, ..self.limits },
                ..self
            }),
    {
        TraceSettings {
            limits: SpanLimits { max_attributes_per_span: value, ..self.limits },
            ..self
        }
    }

    /// The max links that can be added to a span.
    pub fn with_max_links_per_span(self, value: u32) -> (r: Self)
        ensures
            r == (TraceSettings {
                limits: SpanLimits { max_links_per_span: value, ..self.limits },
                ..self
            }),
    {
        TraceSettings { limits: SpanLimits { max_links_per_span: value, ..self.limits }, ..self }
    }

    /// The max attributes that can be added to a link.
    pub fn with_max_attributes_per_link(self, value: u32) -> (r: Self)
        ensures
            r == (TraceSettings {
                limits: SpanLimits { max_attributes_per_link: value, ..self.limits },
                ..self
            }),
    {
        TraceSettings {
            limits: SpanLimits { max_attributes_per_link: value, ..self.limits },
            ..self
        }
    }

    /// The max attributes that can be added to an event.
    pub fn with_max_attributes_per_event(self, value: u32) -> (r: Self)
        ensures
            r == (TraceSettings {
                limits: SpanLimits { max_attributes_per_event: value, ..self.limits },
                ..self
            }),
    {
        TraceSettings {
            limits: SpanLimits { max_attributes_per_event: value, ..self.limits },
            ..self
        }
    }
}

// ---------------------------------------------------------------------------
// Sampler selection
// ---------------------------------------------------------------------------

/// The sampler the trace provider is configured with.
#[derive(Clone, Copy, PartialEq, Eq, Structural, Debug)]
pub enum SamplerKind {
    /// Respect a present parent's decision, else sample at the rate
    /// (millionths).
    ParentBasedRatio(u32),
    /// Never sample.
    AlwaysOff,
    /// Always sample.
    AlwaysOn,
    /// Sample at the rate (millionths), unconditionally.
    Ratio(u32),
}

/// Sampling policy for the given settings: with `respect_parent` a
/// parent-based ratio sampler; otherwise the exact-zero and exact-one rates
/// are special-cased to the deterministic samplers, keeping rate comparisons
/// out of the hot sampling path.
pub open spec fn spec_sampler_for(settings: TraceSettings) -> SamplerKind {
    if settings.respect_parent {
        SamplerKind::ParentBasedRatio(settings.sample_rate)
    } else if settings.sample_rate == 0 {
        SamplerKind::AlwaysOff
    } else if settings.sample_rate == SAMPLE_RATE_SCALE {
        SamplerKind::AlwaysOn
    } else {
        SamplerKind::Ratio(settings.sample_rate)
    }
}

/// Selects the sampler for the given trace settings.
pub fn sampler_for(settings: &TraceSettings) -> (r: SamplerKind)
    ensures
        r == spec_sampler_for(*settings),
{
    if settings.respect_parent {
        SamplerKind::ParentBasedRatio(settings.sample_rate)
    } else if settings.sample_rate == 0 {
        SamplerKind::AlwaysOff
    } else if settings.sample_rate == SAMPLE_RATE_SCALE {
        SamplerKind::AlwaysOn
    } else {
        SamplerKind::Ratio(settings.sample_rate)
    }
}

/// This sampler drops every span, whatever the trace ID or parent.
pub open spec fn sampler_always_drops(k: SamplerKind) -> bool {
    k is AlwaysOff
}

/// This sampler records every span, whatever the trace ID or parent.
pub open spec fn sampler_always_records(k: SamplerKind) -> bool {
    k is AlwaysOn
}

/// Without parent-based sampling, a zero rate selects the sampler that never
/// samples, and a full rate selects the one that always samples.
pub proof fn lemma_deterministic_sampler_selection(settings: TraceSettings)
    ensures
        !settings.respect_parent && settings.sample_rate == 0 ==> sampler_always_drops(
            spec_sampler_for(settings),
        ),
        !settings.respect_parent && settings.sample_rate == SAMPLE_RATE_SCALE
            ==> sampler_always_records(spec_sampler_for(settings)),
{
}

/// The decimal text of a sampling rate in millionths: the integer part, a
/// point, then exactly six fraction digits.
pub open spec fn spec_ratio_text(rate: u32) -> Seq<char> {
    crate::datadog::dec_nat((rate / 1000000) as nat) + seq!['.'] + seq![
        crate::datadog::dec_digit(((rate / 100000) % 10) as int),
        crate::datadog::dec_digit(((rate / 10000) % 10) as int),
        crate::datadog::dec_digit(((rate / 1000) % 10) as int),
        crate::datadog::dec_digit(((rate / 100) % 10) as int),
        crate::datadog::dec_digit(((rate / 10) % 10) as int),
        crate::datadog::dec_digit((rate % 10) as int),
    ]
}

fn ratio_text(rate: u32) -> (r: String)
    ensures
        r@ == spec_ratio_text(rate),
{
    let mut out: Vec<char> = Vec::new();
    crate::datadog::push_dec_u128(&mut out, (rate / 1000000) as u128);
    out.push('.');
    out.push(crate::datadog::dec_digit_value(((rate / 100000) % 10) as u8));
    out.push(crate::datadog::dec_digit_value(((rate / 10000) % 10) as u8));
    out.push(crate::datadog::dec_digit_value(((rate / 1000) % 10) as u8));
    out.push(crate::datadog::dec_digit_value(((rate / 100) % 10) as u8));
    out.push(crate::datadog::dec_digit_value(((rate / 10) % 10) as u8));
    out.push(crate::datadog::dec_digit_value((rate % 10) as u8));
    proof {
        assert(out@ =~= spec_ratio_text(rate));
    }
    crate::datadog::chars_to_string(&out)
}

// ---------------------------------------------------------------------------
// Metrics settings
// ---------------------------------------------------------------------------

/// How metric aggregations relate to previous collections.
#[derive(Clone, Copy, PartialEq, Eq, Structural, Debug)]
pub enum Temporality {
    /// Aggregations accumulate since the start.
    Cumulative,
    /// Aggregations cover one collection cycle.
    Delta,
    /// Delta, tuned for low memory use.
    LowMemory,
}

/// Metrics configuration.
#[derive(Clone, Copy, PartialEq, Eq, Structural, Debug)]
pub struct MetricsSettings {
    /// The temporality metric aggregations are exported with.
    pub temporality: Temporality,
}

impl MetricsSettings {
    /// Creates settings with cumulative temporality.
    pub fn new() -> (r: Self)
        ensures
            r.temporality == Temporality::Cumulative,
    {
        MetricsSettings { temporality: Temporality::Cumulative }
    }

    /// Metrics are measured in cycles.
    pub fn with_delta(self) -> (r: Self)
        ensures
            r.temporality == Temporality::Delta,
    {
        MetricsSettings { temporality: Temporality::Delta }
    }

    /// Delta-measured metrics optimized for low memory usage.
    pub fn with_low_memory(self) -> (r: Self)
        ensures
            r.temporality == Temporality::LowMemory,
    {
        MetricsSettings { temporality: Temporality::LowMemory }
    }
}

// ---------------------------------------------------------------------------
// Attributes
// ---------------------------------------------------------------------------

/// Resource-level attributes exported alongside every record of a provider;
/// immutable and cheaply shareable once built.
#[derive(Clone)]
pub struct Attributes {
    resource: opentelemetry_sdk::Resource,
}

impl Attributes {
    /// Starts an attributes builder.
    pub fn builder() -> AttributesBuilder {
        AttributesBuilder::new()
    }
}

/// Accumulating builder for [`Attributes`].
pub struct AttributesBuilder {
    inner: opentelemetry_sdk::resource::ResourceBuilder,
}

impl AttributesBuilder {
    /// Creates a new builder.
    pub fn new() -> Self {
        AttributesBuilder { inner: resource_builder() }
    }

    /// Adds the `key` attribute with the provided `value`.
    pub fn with_attr(self, key: &str, value: opentelemetry::Value) -> Self {
        AttributesBuilder { inner: resource_builder_attribute(self.inner, key, value) }
    }

    /// Finalizes the builder.
    pub fn finish(self) -> Attributes {
        Attributes { resource: resource_build(self.inner) }
    }
}

// ---------------------------------------------------------------------------
// The handle
// ---------------------------------------------------------------------------

/// The assembled pipeline: the providers of every enabled kind, with
/// aggregated, timeout-bounded shutdown. Call [`Otlp::shutdown`] before
/// discarding the handle; a scope guard doing so on release can be layered on
/// top where best-effort teardown is wanted.
pub struct Otlp {
    logs: Option<opentelemetry_sdk::logs::SdkLoggerProvider>,
    trace: Option<opentelemetry_sdk::trace::SdkTracerProvider>,
    metrics: Option<opentelemetry_sdk::metrics::SdkMeterProvider>,
}

impl Otlp {
    /// A logs provider is populated.
    pub closed spec fn has_logs(self) -> bool {
        self.logs is Some
    }

    /// A trace provider is populated.
    pub closed spec fn has_trace(self) -> bool {
        self.trace is Some
    }

    /// A metrics provider is populated.
    pub closed spec fn has_metrics(self) -> bool {
        self.metrics is Some
    }

    fn new() -> (r: Self)
        ensures
            !r.has_logs() && !r.has_trace() && !r.has_metrics(),
    {
        Otlp { logs: None, trace: None, metrics: None }
    }

    /// Starts building the pipeline for the given destination.
    pub fn builder(destination: Destination) -> (r: Builder)
        ensures
            r.spec_protocol() == destination.protocol,
            r.spec_url() == destination.url@,
            !r.has_logs() && !r.has_trace() && !r.has_metrics(),
            r.spec_headers() == Seq::<(String, String)>::empty(),
            r.spec_timeout_millis() == DEFAULT_EXPORT_TIMEOUT_MILLIS,
            r.spec_compression() == true,
    {
        Builder::new(destination)
    }

    /// Whether the logs provider is populated.
    pub fn logs_enabled(&self) -> (r: bool)
        ensures
            r == self.has_logs(),
    {
        self.logs.is_some()
    }

    /// Whether the trace provider is populated.
    pub fn trace_enabled(&self) -> (r: bool)
        ensures
            r == self.has_trace(),
    {
        self.trace.is_some()
    }

    /// Whether the metrics provider is populated.
    pub fn metrics_enabled(&self) -> (r: bool)
        ensures
            r == self.has_metrics(),
    {
        self.metrics.is_some()
    }

    /// The logs provider, for bridging instrumentation to it.
    pub fn logs_provider(&self) -> (r: Option<&opentelemetry_sdk::logs::SdkLoggerProvider>)
        ensures
            r is Some <==> self.has_logs(),
    {
        self.logs.as_ref()
    }

    /// The trace provider, for bridging instrumentation to it.
    pub fn trace_provider(&self) -> (r: Option<&opentelemetry_sdk::trace::SdkTracerProvider>)
        ensures
            r is Some <==> self.has_trace(),
    {
        self.trace.as_ref()
    }

    /// The metrics provider, for bridging instrumentation to it.
    pub fn metrics_provider(&self) -> (r: Option<&opentelemetry_sdk::metrics::SdkMeterProvider>)
        ensures
            r is Some <==> self.has_metrics(),
    {
        self.metrics.as_ref()
    }

    /// Shuts every populated provider down, giving each up to `limit_millis`
    /// milliseconds; a zero limit means the default of
    /// [`DEFAULT_SHUTDOWN_TIMEOUT_MILLIS`]. One kind's failure neither blocks
    /// nor skips the others: every failure is collected into the aggregate
    /// error, and success is returned only when every attempted shutdown
    /// succeeded. With nothing populated this trivially succeeds.
    pub fn shutdown(&mut self, limit_millis: u64) -> (r: Result<(), ShutdownError>)
        ensures
            !final(self).has_logs() && !final(self).has_trace() && !final(self).has_metrics(),
            !old(self).has_logs() && !old(self).has_trace() && !old(self).has_metrics() ==> r
                is Ok,
            r matches Err(e) ==> e.logs is Some || e.trace is Some || e.metrics is Some,
            r matches Err(e) ==> ((e.logs is Some ==> old(self).has_logs()) && (e.trace is Some
                ==> old(self).has_trace()) && (e.metrics is Some ==> old(self).has_metrics())),
    {
        let limit = effective_timeout(limit_millis);
        let logs_outcome = match self.logs.take() {
            Some(provider) => Some(shutdown_logger(provider, limit)),
            None => None,
        };
        let trace_outcome = match self.trace.take() {
            Some(provider) => Some(shutdown_tracer(provider, limit)),
            None => None,
        };
        let metrics_outcome = match self.metrics.take() {
            Some(provider) => Some(shutdown_meter(provider, limit)),
            None => None,
        };
        aggregate_shutdown(logs_outcome, trace_outcome, metrics_outcome)
    }
}

/// The shutdown limit actually applied: a zero limit stands for the default.
pub open spec fn spec_effective_timeout(millis: u64) -> u64 {
    if millis == 0 {
        DEFAULT_SHUTDOWN_TIMEOUT_MILLIS
    } else {
        millis
    }
}

fn effective_timeout(millis: u64) -> (r: u64)
    ensures
        r == spec_effective_timeout(millis),
{
    if millis == 0 {
        DEFAULT_SHUTDOWN_TIMEOUT_MILLIS
    } else {
        millis
    }
}

/// A zero shutdown limit is applied exactly as the default limit is: both
/// hand every provider the same bound.
pub proof fn lemma_zero_shutdown_limit_is_default()
    ensures
        spec_effective_timeout(0) == spec_effective_timeout(DEFAULT_SHUTDOWN_TIMEOUT_MILLIS),
{
}

/// The failure in one kind's shutdown outcome; `None` for a kind that was not
/// populated or that shut down cleanly.
pub open spec fn failure_of(outcome: Option<Result<(), ExportError>>) -> Option<ExportError> {
    match outcome {
        Some(Err(e)) => Some(e),
        _ => None,
    }
}

/// Folds the per-kind shutdown outcomes (`None` for a kind that was not
/// populated) into one result: success exactly when no kind failed, and
/// otherwise an error carrying exactly the failing kinds' failures.
pub fn aggregate_shutdown(
    logs: Option<Result<(), ExportError>>,
    trace: Option<Result<(), ExportError>>,
    metrics: Option<Result<(), ExportError>>,
) -> (r: Result<(), ShutdownError>)
    ensures
        r is Ok <==> (failure_of(logs) is None && failure_of(trace) is None && failure_of(metrics)
            is None),
        r matches Err(e) ==> e.logs == failure_of(logs) && e.trace == failure_of(trace)
            && e.metrics == failure_of(metrics),
{
    let logs_failure = match logs {
        Some(Err(e)) => Some(e),
        _ => None,
    };
    let trace_failure = match trace {
        Some(Err(e)) => Some(e),
        _ => None,
    };
    let metrics_failure = match metrics {
        Some(Err(e)) => Some(e),
        _ => None,
    };
    if logs_failure.is_some() || trace_failure.is_some() || metrics_failure.is_some() {
        Err(ShutdownError { logs: logs_failure, trace: trace_failure, metrics: metrics_failure })
    } else {
        Ok(())
    }
}

// ---------------------------------------------------------------------------
// The builder
// ---------------------------------------------------------------------------

/// Assembles the pipeline: shared export configuration plus one enabling call
/// per kind, each allowed at most once.
pub struct Builder {
    destination: Destination,
    otlp: Otlp,
    headers: Vec<(String, String)>,
    timeout_millis: u64,
    compression: bool,
}

impl Builder {
    /// The destination's protocol.
    pub closed spec fn spec_protocol(self) -> Protocol {
        self.destination.protocol
    }

    /// The destination's URL.
    pub closed spec fn spec_url(self) -> Seq<char> {
        self.destination.url@
    }

    /// A logs provider has been built.
    pub closed spec fn has_logs(self) -> bool {
        self.otlp.has_logs()
    }

    /// A trace provider has been built.
    pub closed spec fn has_trace(self) -> bool {
        self.otlp.has_trace()
    }

    /// A metrics provider has been built.
    pub closed spec fn has_metrics(self) -> bool {
        self.otlp.has_metrics()
    }

    /// The headers every kind enabled afterward is configured with.
    pub closed spec fn spec_headers(self) -> Seq<(String, String)> {
        self.headers@
    }

    /// The export timeout every kind enabled afterward is configured with.
    pub closed spec fn spec_timeout_millis(self) -> u64 {
        self.timeout_millis
    }

    /// Whether kinds enabled afterward use transport compression.
    pub closed spec fn spec_compression(self) -> bool {
        self.compression
    }

    /// All shared export configuration, as one tuple for contract brevity.
    pub open spec fn spec_config(self) -> (Protocol, Seq<char>, Seq<(String, String)>, u64, bool) {
        (
            self.spec_protocol(),
            self.spec_url(),
            self.spec_headers(),
            self.spec_timeout_millis(),
            self.spec_compression(),
        )
    }

    /// Which kinds have been enabled so far.
    pub open spec fn spec_enabled(self) -> (bool, bool, bool) {
        (self.has_logs(), self.has_trace(), self.has_metrics())
    }

    /// Starts building for the given destination, with no kind enabled, no
    /// headers, the default export timeout and compression on.
    pub fn new(destination: Destination) -> (r: Self)
        ensures
            r.spec_protocol() == destination.protocol,
            r.spec_url() == destination.url@,
            !r.has_logs() && !r.has_trace() && !r.has_metrics(),
            r.spec_headers() == Seq::<(String, String)>::empty(),
            r.spec_timeout_millis() == DEFAULT_EXPORT_TIMEOUT_MILLIS,
            r.spec_compression() == true,
    {
        Builder {
            destination,
            otlp: Otlp::new(),
            headers: Vec::new(),
            timeout_millis: DEFAULT_EXPORT_TIMEOUT_MILLIS,
            compression: true,
        }
    }

    /// Specifies whether exporters enabled afterward compress their payloads.
    pub fn with_compression(self, compression: bool) -> (r: Self)
        ensures
            r.spec_compression() == compression,
            r.spec_protocol() == self.spec_protocol(),
            r.spec_url() == self.spec_url(),
            r.spec_headers() == self.spec_headers(),
            r.spec_timeout_millis() == self.spec_timeout_millis(),
            r.spec_enabled() == self.spec_enabled(),
    {
        Builder { compression, ..self }
    }

    /// Specifies the export timeout, in milliseconds, for every kind enabled
    /// afterward.
    pub fn with_timeout(self, timeout_millis: u64) -> (r: Self)
        ensures
            r.spec_timeout_millis() == timeout_millis,
            r.spec_protocol() == self.spec_protocol(),
            r.spec_url() == self.spec_url(),
            r.spec_headers() == self.spec_headers(),
            r.spec_compression() == self.spec_compression(),
            r.spec_enabled() == self.spec_enabled(),
    {
        Builder { timeout_millis, ..self }
    }

    /// Adds a header sent to every destination enabled afterward.
    pub fn with_header(self, key: String, value: String) -> (r: Self)
        ensures
            r.spec_headers() == self.spec_headers().push((key, value)),
            r.spec_protocol() == self.spec_protocol(),
            r.spec_url() == self.spec_url(),
            r.spec_timeout_millis() == self.spec_timeout_millis(),
            r.spec_compression() == self.spec_compression(),
            r.spec_enabled() == self.spec_enabled(),
    {
        let mut this = self;
        this.headers.push((key, value));
        this
    }

    /// Enables the logs exporter, annotating records with `attrs`. Fails when
    /// logs were already enabled, when the protocol cannot carry logs, when a
    /// header cannot be carried by the gRPC transport, or when the transport
    /// refuses to construct the exporter.
    pub fn with_logs(self, attrs: Option<&Attributes>) -> (r: Result<Builder, ConfigError>)
        requires
            self.spec_protocol() == Protocol::Grpc ==> self.spec_headers().len()
                <= MAX_TRANSPORT_HEADERS,
        ensures
            self.has_logs() ==> r == Err::<Builder, ConfigError>(
                ConfigError::AlreadyEnabled(TelemetryKind::Logs),
            ),
            !self.has_logs() && self.spec_protocol() == Protocol::DatadogAgent ==> r == Err::<
                Builder,
                ConfigError,
            >(ConfigError::UnsupportedProtocol),
            !self.has_logs() && self.spec_protocol() == Protocol::Grpc ==> (first_invalid_header(
                self.spec_headers(),
                0,
            ) matches Some(k) ==> (r matches Err(e) && e matches ConfigError::InvalidHeader(key)
                && key@ == k)),
            r matches Ok(b) ==> !self.has_logs() && b.has_logs() && b.has_trace()
                == self.has_trace() && b.has_metrics() == self.has_metrics() && b.spec_config()
                == self.spec_config(),
            r matches Err(e) ==> (e == ConfigError::AlreadyEnabled(TelemetryKind::Logs)
                && self.has_logs()) || (e == ConfigError::UnsupportedProtocol
                && self.spec_protocol() == Protocol::DatadogAgent) || (e matches
            ConfigError::InvalidHeader(key) && self.spec_protocol() == Protocol::Grpc && Some(key@)
                == first_invalid_header(self.spec_headers(), 0)) || (e matches
            ConfigError::ExporterBuild(_) && self.spec_protocol() != Protocol::DatadogAgent && (
            self.spec_protocol() == Protocol::Grpc ==> first_invalid_header(
                self.spec_headers(),
                0,
            ) is None)),
    {
        if self.otlp.logs.is_some() {
            return Err(ConfigError::AlreadyEnabled(TelemetryKind::Logs));
        }
        let processor = match self.destination.protocol {
            Protocol::Grpc => {
                let metadata = match build_metadata(&self.headers) {
                    Ok(m) => m,
                    Err(key) => {
                        return Err(ConfigError::InvalidHeader(key));
                    },
                };
                match build_log_processor_grpc(
                    self.destination.url.clone(),
                    self.timeout_millis,
                    self.compression,
                    metadata,
                ) {
                    Ok(p) => p,
                    Err(message) => {
                        return Err(ConfigError::ExporterBuild(message));
                    },
                }
            },
            Protocol::DatadogAgent => {
                return Err(ConfigError::UnsupportedProtocol);
            },
            _ => {
                let endpoint = kind_endpoint(self.destination.url.as_str(), TelemetryKind::Logs);
                let headers = headers_map(&self.headers);
                match build_log_processor_http(
                    endpoint,
                    self.timeout_millis,
                    self.destination.protocol,
                    self.compression,
                    headers,
                ) {
                    Ok(p) => p,
                    Err(message) => {
                        return Err(ConfigError::ExporterBuild(message));
                    },
                }
            },
        };
        let provider = match attrs {
            Some(a) => logger_provider_with_resource(processor, a),
            None => logger_provider(processor),
        };
        let mut this = self;
        this.otlp.logs = Some(provider);
        Ok(this)
    }

    /// Enables the trace exporter, annotating spans with `attrs` and applying
    /// the sampling policy and span limits of `settings` (a limit is handed to
    /// the provider only where it differs from the default). Fails when traces
    /// were already enabled, when a header cannot be carried by the gRPC
    /// transport, or when the transport refuses to construct the exporter.
    pub fn with_trace(self, attrs: Option<&Attributes>, settings: TraceSettings) -> (r: Result<
        Builder,
        ConfigError,
    >)
        requires
            self.spec_protocol() == Protocol::Grpc ==> self.spec_headers().len()
                <= MAX_TRANSPORT_HEADERS,
        ensures
            self.has_trace() ==> r == Err::<Builder, ConfigError>(
                ConfigError::AlreadyEnabled(TelemetryKind::Trace),
            ),
            !self.has_trace() && self.spec_protocol() == Protocol::Grpc ==> (first_invalid_header(
                self.spec_headers(),
                0,
            ) matches Some(k) ==> (r matches Err(e) && e matches ConfigError::InvalidHeader(key)
                && key@ == k)),
            r matches Ok(b) ==> !self.has_trace() && b.has_trace() && b.has_logs()
                == self.has_logs() && b.has_metrics() == self.has_metrics() && b.spec_config()
                == self.spec_config(),
            r matches Err(e) ==> (e == ConfigError::AlreadyEnabled(TelemetryKind::Trace)
                && self.has_trace()) || (e matches ConfigError::InvalidHeader(key)
                && self.spec_protocol() == Protocol::Grpc && Some(key@) == first_invalid_header(
                self.spec_headers(),
                0,
            )) || (e matches ConfigError::ExporterBuild(_) && (self.spec_protocol()
                == Protocol::Grpc ==> first_invalid_header(self.spec_headers(), 0) is None)),
    {
        if self.otlp.trace.is_some() {
            return Err(ConfigError::AlreadyEnabled(TelemetryKind::Trace));
        }
        let processor = match self.destination.protocol {
            Protocol::Grpc => {
                let metadata = match build_metadata(&self.headers) {
                    Ok(m) => m,
                    Err(key) => {
                        return Err(ConfigError::InvalidHeader(key));
                    },
                };
                match build_span_processor_grpc(
                    self.destination.url.clone(),
                    self.timeout_millis,
                    self.compression,
                    metadata,
                ) {
                    Ok(p) => p,
                    Err(message) => {
                        return Err(ConfigError::ExporterBuild(message));
                    },
                }
            },
            Protocol::DatadogAgent => {
                match build_span_processor_datadog(self.destination.url.clone()) {
                    Ok(p) => p,
                    Err(message) => {
                        return Err(ConfigError::ExporterBuild(message));
                    },
                }
            },
            _ => {
                let endpoint = kind_endpoint(self.destination.url.as_str(), TelemetryKind::Trace);
                let headers = headers_map(&self.headers);
                match build_span_processor_http(
                    endpoint,
                    self.timeout_millis,
                    self.destination.protocol,
                    self.compression,
                    headers,
                ) {
                    Ok(p) => p,
                    Err(message) => {
                        return Err(ConfigError::ExporterBuild(message));
                    },
                }
            },
        };
        let mut builder = tracer_builder();
        builder = tracer_builder_sampler(
            builder,
            sampler_for(&settings),
            ratio_text(settings.sample_rate),
        );
        if settings.limits.max_events_per_span != DEFAULT_SPAN_LIMIT {
            builder = tracer_builder_max_events_per_span(
                builder,
                settings.limits.max_events_per_span,
            );
        }
        if settings.limits.max_attributes_per_span != DEFAULT_SPAN_LIMIT {
            builder = tracer_builder_max_attributes_per_span(
                builder,
                settings.limits.max_attributes_per_span,
            );
        }
        if settings.limits.max_links_per_span != DEFAULT_SPAN_LIMIT {
            builder = tracer_builder_max_links_per_span(
                builder,
                settings.limits.max_links_per_span,
            );
        }
        if settings.limits.max_attributes_per_link != DEFAULT_SPAN_LIMIT {
            builder = tracer_builder_max_attributes_per_link(
                builder,
                settings.limits.max_attributes_per_link,
            );
        }
        if settings.limits.max_attributes_per_event != DEFAULT_SPAN_LIMIT {
            builder = tracer_builder_max_attributes_per_event(
                builder,
                settings.limits.max_attributes_per_event,
            );
        }
        if let Some(a) = attrs {
            builder = tracer_builder_resource(builder, a);
        }
        let provider = tracer_builder_finish(builder, processor);
        let mut this = self;
        this.otlp.trace = Some(provider);
        Ok(this)
    }

    /// Enables the metrics exporter, annotating points with `attrs` and
    /// exporting with the temporality of `settings`. Fails when metrics were
    /// already enabled, when the protocol cannot carry metrics, when a header
    /// cannot be carried by the gRPC transport, or when the transport refuses
    /// to construct the exporter.
    pub fn with_metrics(self, attrs: Option<&Attributes>, settings: MetricsSettings) -> (r: Result<
        Builder,
        ConfigError,
    >)
        requires
            self.spec_protocol() == Protocol::Grpc ==> self.spec_headers().len()
                <= MAX_TRANSPORT_HEADERS,
        ensures
            self.has_metrics() ==> r == Err::<Builder, ConfigError>(
                ConfigError::AlreadyEnabled(TelemetryKind::Metrics),
            ),
            !self.has_metrics() && self.spec_protocol() == Protocol::DatadogAgent ==> r == Err::<
                Builder,
                ConfigError,
            >(ConfigError::UnsupportedProtocol),
            !self.has_metrics() && self.spec_protocol() == Protocol::Grpc ==> (
            first_invalid_header(self.spec_headers(), 0) matches Some(k) ==> (r matches Err(e)
                && e matches ConfigError::InvalidHeader(key) && key@ == k)),
            r matches Ok(b) ==> !self.has_metrics() && b.has_metrics() && b.has_logs()
                == self.has_logs() && b.has_trace() == self.has_trace() && b.spec_config()
                == self.spec_config(),
            r matches Err(e) ==> (e == ConfigError::AlreadyEnabled(TelemetryKind::Metrics)
                && self.has_metrics()) || (e == ConfigError::UnsupportedProtocol
                && self.spec_protocol() == Protocol::DatadogAgent) || (e matches
            ConfigError::InvalidHeader(key) && self.spec_protocol() == Protocol::Grpc && Some(key@)
                == first_invalid_header(self.spec_headers(), 0)) || (e matches
            ConfigError::ExporterBuild(_) && self.spec_protocol() != Protocol::DatadogAgent && (
            self.spec_protocol() == Protocol::Grpc ==> first_invalid_header(
                self.spec_headers(),
                0,
            ) is None)),
    {
        if self.otlp.metrics.is_some() {
            return Err(ConfigError::AlreadyEnabled(TelemetryKind::Metrics));
        }
        let exporter = match self.destination.protocol {
            Protocol::Grpc => {
                let metadata = match build_metadata(&self.headers) {
                    Ok(m) => m,
                    Err(key) => {
                        return Err(ConfigError::InvalidHeader(key));
                    },
                };
                match build_metric_exporter_grpc(
                    self.destination.url.clone(),
                    self.timeout_millis,
                    self.compression,
                    metadata,
                    settings.temporality,
                ) {
                    Ok(e) => e,
                    Err(message) => {
                        return Err(ConfigError::ExporterBuild(message));
                    },
                }
            },
            Protocol::DatadogAgent => {
                return Err(ConfigError::UnsupportedProtocol);
            },
            _ => {
                let endpoint = kind_endpoint(
                    self.destination.url.as_str(),
                    TelemetryKind::Metrics,
                );
                let headers = headers_map(&self.headers);
                match build_metric_exporter_http(
                    endpoint,
                    self.timeout_millis,
                    self.destination.protocol,
                    self.compression,
                    headers,
                    settings.temporality,
                ) {
                    Ok(e) => e,
                    Err(message) => {
                        return Err(ConfigError::ExporterBuild(message));
                    },
                }
            },
        };
        let provider = match attrs {
            Some(a) => meter_provider_with_resource(exporter, a),
            None => meter_provider(exporter),
        };
        let mut this = self;
        this.otlp.metrics = Some(provider);
        Ok(this)
    }

    /// Finalizes the builder into the assembled handle.
    pub fn finish(self) -> (r: Otlp)
        ensures
            r.has_logs() == self.has_logs(),
            r.has_trace() == self.has_trace(),
            r.has_metrics() == self.has_metrics(),
    {
        self.otlp
    }
}

/// Whether the gRPC transport accepts the header pair: its key parses as a
/// metadata key and its value as an ASCII metadata value — a pure function of
/// the two strings.
pub uninterp spec fn valid_metadata_pair(key: Seq<char>, value: Seq<char>) -> bool;

/// The key text the gRPC transport stores for an accepted key (the transport
/// normalizes key case).
pub uninterp spec fn normalized_metadata_key(key: Seq<char>) -> Seq<char>;

/// What the gRPC transport's metadata holds: the accepted pairs, in the order
/// they were appended, keys as stored.
pub uninterp spec fn metadata_entries(map: tonic::metadata::MetadataMap) -> Seq<
    (Seq<char>, Seq<char>),
>;

/// The key of the first configured header from position `i` on that the gRPC
/// transport refuses.
pub open spec fn first_invalid_header(headers: Seq<(String, String)>, i: int) -> Option<Seq<char>>
    decreases headers.len() - i,
{
    if 0 <= i < headers.len() {
        if !valid_metadata_pair(headers[i].0@, headers[i].1@) {
            Some(headers[i].0@)
        } else {
            first_invalid_header(headers, i + 1)
        }
    } else {
        None
    }
}

/// The metadata built from the headers from position `i` on: every pair in
/// input order, duplicate keys preserved, keys as the transport stores them.
pub open spec fn built_metadata_entries(headers: Seq<(String, String)>, i: int) -> Seq<
    (Seq<char>, Seq<char>),
>
    decreases headers.len() - i,
{
    if 0 <= i < headers.len() {
        seq![(normalized_metadata_key(headers[i].0@), headers[i].1@)] + built_metadata_entries(
            headers,
            i + 1,
        )
    } else {
        Seq::empty()
    }
}

/// Builds the gRPC transport's metadata from the configured headers: every
/// pair accepted and appended in input order, or the key of the first pair
/// the transport refuses.
#[verifier::loop_isolation(false)]
fn build_metadata(headers: &Vec<(String, String)>) -> (r: Result<
    tonic::metadata::MetadataMap,
    String,
>)
    requires
        headers@.len() <= MAX_TRANSPORT_HEADERS,
    ensures
        r is Ok <==> first_invalid_header(headers@, 0) is None,
        r matches Ok(m) ==> metadata_entries(m) == built_metadata_entries(headers@, 0),
        r matches Err(key) ==> Some(key@) == first_invalid_header(headers@, 0),
{
    let mut map = metadata_map_new();
    let mut i: usize = 0;
    while i < headers.len()
        invariant
            i <= headers@.len(),
            metadata_entries(map).len() == i,
            first_invalid_header(headers@, 0) == first_invalid_header(headers@, i as int),
            metadata_entries(map) + built_metadata_entries(headers@, i as int)
                == built_metadata_entries(headers@, 0),
        decreases headers@.len() - i,
    {
        let ghost before = metadata_entries(map);
        let appended = metadata_append(&mut map, &headers[i].0, &headers[i].1);
        if !appended {
            return Err(headers[i].0.clone());
        }
        proof {
            assert(metadata_entries(map) + built_metadata_entries(headers@, i + 1 as int) =~= before
                + built_metadata_entries(headers@, i as int));
        }
        i = i + 1;
    }
    Ok(map)
}

/// The headers folded into a map, a later entry winning for a repeated key.
pub open spec fn headers_as_map(headers: Seq<(String, String)>) -> Map<String, String>
    decreases headers.len(),
{
    if headers.len() == 0 {
        Map::empty()
    } else {
        headers_as_map(headers.drop_last()).insert(headers.last().0, headers.last().1)
    }
}

/// Collects the configured headers into the map shape the HTTP transport
/// takes; a repeated key keeps its last value (stated under the standard
/// key-model assumption for hashed string keys).
#[verifier::loop_isolation(false)]
fn headers_map(headers: &Vec<(String, String)>) -> (r: HashMap<String, String>)
    ensures
        vstd::std_specs::hash::obeys_key_model::<String>() ==> r@ == headers_as_map(headers@),
{
    broadcast use vstd::std_specs::hash::axiom_random_state_builds_valid_hashers;

    let mut map: HashMap<String, String> = HashMap::new();
    let mut i: usize = 0;
    while i < headers.len()
        invariant
            i <= headers@.len(),
            vstd::std_specs::hash::obeys_key_model::<String>() ==> map@ == headers_as_map(
                headers@.take(i as int),
            ),
        decreases headers@.len() - i,
    {
        map.insert(headers[i].0.clone(), headers[i].1.clone());
        proof {
            assert(headers@.take(i + 1 as int).drop_last() =~= headers@.take(i as int));
            assert(headers@.take(i + 1 as int).last() == headers@[i as int]);
        }
        i = i + 1;
    }
    proof {
        assert(headers@.take(headers@.len() as int) =~= headers@);
    }
    map
}

// ---------------------------------------------------------------------------
// Declarations of the collaborator types carried through the pipeline
// ---------------------------------------------------------------------------

#[verifier::external_type_specification]
#[verifier::external_body]
/// The resource attributes collaborator type, carried through opaquely.
pub struct ExResource(opentelemetry_sdk::Resource);

#[verifier::external_type_specification]
#[verifier::external_body]
/// Its accumulating builder, carried through opaquely.
pub struct ExResourceBuilder(opentelemetry_sdk::resource::ResourceBuilder);

#[verifier::external_type_specification]
#[verifier::external_body]
/// An attribute value of the collaborator, carried through opaquely.
pub struct ExValue(opentelemetry::Value);

#[verifier::external_type_specification]
#[verifier::external_body]
/// The gRPC transport's header map, carried through opaquely.
pub struct ExMetadataMap(tonic::metadata::MetadataMap);

#[verifier::external_type_specification]
#[verifier::external_body]
/// The logs provider, carried through opaquely.
pub struct ExSdkLoggerProvider(opentelemetry_sdk::logs::SdkLoggerProvider);

#[verifier::external_type_specification]
#[verifier::external_body]
/// The trace provider, carried through opaquely.
pub struct ExSdkTracerProvider(opentelemetry_sdk::trace::SdkTracerProvider);

#[verifier::external_type_specification]
#[verifier::external_body]
/// The metrics provider, carried through opaquely.
pub struct ExSdkMeterProvider(opentelemetry_sdk::metrics::SdkMeterProvider);

#[verifier::external_type_specification]
#[verifier::external_body]
/// The batching log processor, carried through opaquely.
pub struct ExBatchLogProcessor(opentelemetry_sdk::logs::BatchLogProcessor);

#[verifier::external_type_specification]
#[verifier::external_body]
/// The batching span processor, carried through opaquely.
pub struct ExBatchSpanProcessor(opentelemetry_sdk::trace::BatchSpanProcessor);

#[verifier::external_type_specification]
#[verifier::external_body]
/// The trace provider's builder, carried through opaquely.
pub struct ExTracerProviderBuilder(opentelemetry_sdk::trace::TracerProviderBuilder);

#[verifier::external_type_specification]
#[verifier::external_body]
/// The metric exporter over the network transport, carried through opaquely.
pub struct ExMetricExporter(opentelemetry_otlp::MetricExporter);

// ---------------------------------------------------------------------------
// Trusted calls into the collaborators
// ---------------------------------------------------------------------------

/// Relies on opentelemetry_sdk::Resource being reference-counted: cloning
/// shares the same read-only attribute set.
pub assume_specification[ <opentelemetry_sdk::Resource as Clone>::clone ](
    resource: &opentelemetry_sdk::Resource,
) -> opentelemetry_sdk::Resource;

/// Relies on opentelemetry_sdk::Resource::builder.
#[verifier::external_body]
fn resource_builder() -> opentelemetry_sdk::resource::ResourceBuilder {
    opentelemetry_sdk::Resource::builder()
}

/// Relies on ResourceBuilder::with_attribute: adds the key/value pair to the
/// resource under construction.
#[verifier::external_body]
fn resource_builder_attribute(
    builder: opentelemetry_sdk::resource::ResourceBuilder,
    key: &str,
    value: opentelemetry::Value,
) -> opentelemetry_sdk::resource::ResourceBuilder {
    builder.with_attribute(opentelemetry::KeyValue::new(key.to_owned(), value))
}

/// Relies on ResourceBuilder::build.
#[verifier::external_body]
fn resource_build(
    builder: opentelemetry_sdk::resource::ResourceBuilder,
) -> opentelemetry_sdk::Resource {
    builder.build()
}

/// Relies on tonic::metadata::MetadataMap::new: the new map is empty.
#[verifier::external_body]
fn metadata_map_new() -> (r: tonic::metadata::MetadataMap)
    ensures
        metadata_entries(r) == Seq::<(Seq<char>, Seq<char>)>::empty(),
{
    tonic::metadata::MetadataMap::new()
}

/// Relies on tonic's MetadataKey::from_bytes (which normalizes the key) and
/// ASCII MetadataValue parsing — both pure functions of the strings — and on
/// MetadataMap::append: exactly when both parses accept, the pair goes in
/// behind the map's existing entries, else the map is untouched. The size
/// bound keeps the map below the capacity past which it aborts on growth.
#[verifier::external_body]
fn metadata_append(map: &mut tonic::metadata::MetadataMap, key: &String, value: &String) -> (r:
    bool)
    requires
        metadata_entries(*old(map)).len() < MAX_TRANSPORT_HEADERS,
    ensures
        r == valid_metadata_pair(key@, value@),
        r ==> metadata_entries(*final(map)) == metadata_entries(*old(map)) + seq![
            (normalized_metadata_key(key@), value@),
        ],
        !r ==> *final(map) == *old(map),
{
    let parsed_key = match tonic::metadata::MetadataKey::from_bytes(key.as_bytes()) {
        Ok(k) => k,
        Err(_) => return false,
    };
    match value.parse::<tonic::metadata::MetadataValue<tonic::metadata::Ascii>>() {
        Ok(v) => {
            map.append(parsed_key, v);
            true
        },
        Err(_) => false,
    }
}

/// Relies on opentelemetry_otlp::LogExporter's tonic builder and
/// BatchLogProcessor::builder: a gRPC log exporter for the endpoint with the
/// timeout, metadata and, when asked, gzip compression, wrapped in a batching
/// processor.
#[verifier::external_body]
fn build_log_processor_grpc(
    endpoint: String,
    timeout_millis: u64,
    gzip: bool,
    metadata: tonic::metadata::MetadataMap,
) -> Result<opentelemetry_sdk::logs::BatchLogProcessor, String> {
    let mut builder = opentelemetry_otlp::LogExporter::builder().with_tonic().with_endpoint(
        endpoint,
    ).with_timeout(core::time::Duration::from_millis(timeout_millis)).with_metadata(metadata);
    if gzip {
        builder = builder.with_compression(opentelemetry_otlp::Compression::Gzip);
    }
    match builder.build() {
        Ok(exporter) => Ok(opentelemetry_sdk::logs::BatchLogProcessor::builder(exporter).build()),
        Err(e) => Err(e.to_string()),
    }
}

/// Relies on opentelemetry_otlp::LogExporter's HTTP builder and
/// BatchLogProcessor::builder: an HTTP log exporter for the endpoint with the
/// given HTTP body encoding (mapped variant for variant onto the transport's
/// selector), timeout, headers and, when asked, gzip compression, wrapped in
/// a batching processor.
#[verifier::external_body]
fn build_log_processor_http(
    endpoint: String,
    timeout_millis: u64,
    protocol: Protocol,
    gzip: bool,
    headers: HashMap<String, String>,
) -> Result<opentelemetry_sdk::logs::BatchLogProcessor, String>
    requires
        protocol == Protocol::HttpBinary || protocol == Protocol::HttpJson,
{
    let protocol = match protocol { Protocol::HttpJson => OtlpProtocol::HttpJson, _ => OtlpProtocol::HttpBinary };
    let mut builder = opentelemetry_otlp::LogExporter::builder().with_http().with_protocol(
        protocol,
    ).with_endpoint(endpoint).with_timeout(
        core::time::Duration::from_millis(timeout_millis),
    ).with_headers(headers);
    if gzip {
        builder = builder.with_compression(opentelemetry_otlp::Compression::Gzip);
    }
    match builder.build() {
        Ok(exporter) => Ok(opentelemetry_sdk::logs::BatchLogProcessor::builder(exporter).build()),
        Err(e) => Err(e.to_string()),
    }
}

/// Relies on opentelemetry_otlp::SpanExporter's tonic builder and
/// BatchSpanProcessor::new with the default batch configuration.
#[verifier::external_body]
fn build_span_processor_grpc(
    endpoint: String,
    timeout_millis: u64,
    gzip: bool,
    metadata: tonic::metadata::MetadataMap,
) -> Result<opentelemetry_sdk::trace::BatchSpanProcessor, String> {
    let config = opentelemetry_sdk::trace::BatchConfigBuilder::default().build();
    let mut builder = opentelemetry_otlp::SpanExporter::builder().with_tonic().with_endpoint(
        endpoint,
    ).with_timeout(core::time::Duration::from_millis(timeout_millis)).with_metadata(metadata);
    if gzip {
        builder = builder.with_compression(opentelemetry_otlp::Compression::Gzip);
    }
    match builder.build() {
        Ok(exporter) => Ok(opentelemetry_sdk::trace::BatchSpanProcessor::new(exporter, config)),
        Err(e) => Err(e.to_string()),
    }
}

/// Relies on opentelemetry_otlp::SpanExporter's HTTP builder (the HTTP body
/// encoding mapped variant for variant onto the transport's selector, gzip
/// compression applied when asked) and BatchSpanProcessor::new with the
/// default batch configuration.
#[verifier::external_body]
fn build_span_processor_http(
    endpoint: String,
    timeout_millis: u64,
    protocol: Protocol,
    gzip: bool,
    headers: HashMap<String, String>,
) -> Result<opentelemetry_sdk::trace::BatchSpanProcessor, String>
    requires
        protocol == Protocol::HttpBinary || protocol == Protocol::HttpJson,
{
    let protocol = match protocol { Protocol::HttpJson => OtlpProtocol::HttpJson, _ => OtlpProtocol::HttpBinary };
    let config = opentelemetry_sdk::trace::BatchConfigBuilder::default().build();
    let mut builder = opentelemetry_otlp::SpanExporter::builder().with_http().with_protocol(
        protocol,
    ).with_endpoint(endpoint).with_timeout(
        core::time::Duration::from_millis(timeout_millis),
    ).with_headers(headers);
    if gzip {
        builder = builder.with_compression(opentelemetry_otlp::Compression::Gzip);
    }
    match builder.build() {
        Ok(exporter) => Ok(opentelemetry_sdk::trace::BatchSpanProcessor::new(exporter, config)),
        Err(e) => Err(e.to_string()),
    }
}

/// Relies on opentelemetry_datadog's pipeline: a span exporter speaking the
/// agent's own protocol to the endpoint, wrapped in a batching processor with
/// the default batch configuration.
#[verifier::external_body]
fn build_span_processor_datadog(
    endpoint: String,
) -> Result<opentelemetry_sdk::trace::BatchSpanProcessor, String> {
    let config = opentelemetry_sdk::trace::BatchConfigBuilder::default().build();
    match opentelemetry_datadog::new_pipeline().with_agent_endpoint(endpoint).build_exporter() {
        Ok(exporter) => Ok(opentelemetry_sdk::trace::BatchSpanProcessor::new(exporter, config)),
        Err(e) => Err(e.to_string()),
    }
}

/// Relies on opentelemetry_otlp::MetricExporter's tonic builder, with the
/// given temporality mapped variant for variant onto the collaborator's.
#[verifier::external_body]
fn build_metric_exporter_grpc(
    endpoint: String,
    timeout_millis: u64,
    gzip: bool,
    metadata: tonic::metadata::MetadataMap,
    temporality: Temporality,
) -> Result<opentelemetry_otlp::MetricExporter, String> {
    let temporality = match temporality { Temporality::Cumulative => OtelTemporality::Cumulative, Temporality::Delta => OtelTemporality::Delta, Temporality::LowMemory => OtelTemporality::LowMemory };
    let mut builder = opentelemetry_otlp::MetricExporter::builder().with_tonic().with_endpoint(
        endpoint,
    ).with_timeout(core::time::Duration::from_millis(timeout_millis)).with_metadata(
        metadata,
    ).with_temporality(temporality);
    if gzip {
        builder = builder.with_compression(opentelemetry_otlp::Compression::Gzip);
    }
    builder.build().map_err(|e| e.to_string())
}

/// Relies on opentelemetry_otlp::MetricExporter's HTTP builder, with the HTTP
/// body encoding and the temporality each mapped variant for variant onto the
/// collaborator's selectors, and gzip compression applied when asked.
#[verifier::external_body]
fn build_metric_exporter_http(
    endpoint: String,
    timeout_millis: u64,
    protocol: Protocol,
    gzip: bool,
    headers: HashMap<String, String>,
    temporality: Temporality,
) -> Result<opentelemetry_otlp::MetricExporter, String>
    requires
        protocol == Protocol::HttpBinary || protocol == Protocol::HttpJson,
{
    let protocol = match protocol { Protocol::HttpJson => OtlpProtocol::HttpJson, _ => OtlpProtocol::HttpBinary };
    let temporality = match temporality { Temporality::Cumulative => OtelTemporality::Cumulative, Temporality::Delta => OtelTemporality::Delta, Temporality::LowMemory => OtelTemporality::LowMemory };
    let mut builder = opentelemetry_otlp::MetricExporter::builder().with_http().with_protocol(
        protocol,
    ).with_endpoint(endpoint).with_timeout(
        core::time::Duration::from_millis(timeout_millis),
    ).with_headers(headers).with_temporality(temporality);
    if gzip {
        builder = builder.with_compression(opentelemetry_otlp::Compression::Gzip);
    }
    builder.build().map_err(|e| e.to_string())
}

/// Relies on SdkLoggerProvider::builder: a logs provider owning the processor,
/// with the provider's default resource.
#[verifier::external_body]
fn logger_provider(
    processor: opentelemetry_sdk::logs::BatchLogProcessor,
) -> opentelemetry_sdk::logs::SdkLoggerProvider {
    opentelemetry_sdk::logs::SdkLoggerProvider::builder().with_log_processor(processor).build()
}

/// Relies on SdkLoggerProvider::builder with with_resource: a logs provider
/// owning the processor and carrying the attributes.
#[verifier::external_body]
fn logger_provider_with_resource(
    processor: opentelemetry_sdk::logs::BatchLogProcessor,
    attrs: &Attributes,
) -> opentelemetry_sdk::logs::SdkLoggerProvider {
    opentelemetry_sdk::logs::SdkLoggerProvider::builder().with_resource(
        attrs.resource.clone(),
    ).with_log_processor(processor).build()
}

/// Relies on SdkTracerProvider::builder with the random trace/span ID
/// generator.
#[verifier::external_body]
fn tracer_builder() -> opentelemetry_sdk::trace::TracerProviderBuilder {
    opentelemetry_sdk::trace::SdkTracerProvider::builder().with_id_generator(
        opentelemetry_sdk::trace::RandomIdGenerator::default(),
    )
}

/// Relies on TracerProviderBuilder::with_sampler and the collaborator's
/// samplers: `AlwaysOff` and `AlwaysOn` map to the deterministic samplers that
/// drop, respectively record, every span; a ratio kind maps to the trace-ID
/// ratio sampler with the probability given by `ratio`, the rate's
/// pre-rendered decimal text (on which the parse cannot fail), alone or under
/// the parent-respecting combinator.
#[verifier::external_body]
fn tracer_builder_sampler(
    builder: opentelemetry_sdk::trace::TracerProviderBuilder,
    kind: SamplerKind,
    ratio: String,
) -> opentelemetry_sdk::trace::TracerProviderBuilder
    requires
        kind matches SamplerKind::Ratio(n) ==> ratio@ == spec_ratio_text(n),
        kind matches SamplerKind::ParentBasedRatio(n) ==> ratio@ == spec_ratio_text(n),
{
    let sampler = match kind {
        SamplerKind::AlwaysOff => Sampler::AlwaysOff,
        SamplerKind::AlwaysOn => Sampler::AlwaysOn,
        SamplerKind::Ratio(_) => Sampler::TraceIdRatioBased(ratio.parse().unwrap()),
        SamplerKind::ParentBasedRatio(_) => Sampler::ParentBased(
            Box::new(Sampler::TraceIdRatioBased(ratio.parse().unwrap())),
        ),
    };
    builder.with_sampler(sampler)
}

/// Relies on TracerProviderBuilder::with_max_events_per_span.
#[verifier::external_body]
fn tracer_builder_max_events_per_span(
    builder: opentelemetry_sdk::trace::TracerProviderBuilder,
    value: u32,
) -> opentelemetry_sdk::trace::TracerProviderBuilder {
    builder.with_max_events_per_span(value)
}

/// Relies on TracerProviderBuilder::with_max_attributes_per_span.
#[verifier::external_body]
fn tracer_builder_max_attributes_per_span(
    builder: opentelemetry_sdk::trace::TracerProviderBuilder,
    value: u32,
) -> opentelemetry_sdk::trace::TracerProviderBuilder {
    builder.with_max_attributes_per_span(value)
}

/// Relies on TracerProviderBuilder::with_max_links_per_span.
#[verifier::external_body]
fn tracer_builder_max_links_per_span(
    builder: opentelemetry_sdk::trace::TracerProviderBuilder,
    value: u32,
) -> opentelemetry_sdk::trace::TracerProviderBuilder {
    builder.with_max_links_per_span(value)
}

/// Relies on TracerProviderBuilder::with_max_attributes_per_link.
#[verifier::external_body]
fn tracer_builder_max_attributes_per_link(
    builder: opentelemetry_sdk::trace::TracerProviderBuilder,
    value: u32,
) -> opentelemetry_sdk::trace::TracerProviderBuilder {
    builder.with_max_attributes_per_link(value)
}

/// Relies on TracerProviderBuilder::with_max_attributes_per_event.
#[verifier::external_body]
fn tracer_builder_max_attributes_per_event(
    builder: opentelemetry_sdk::trace::TracerProviderBuilder,
    value: u32,
) -> opentelemetry_sdk::trace::TracerProviderBuilder {
    builder.with_max_attributes_per_event(value)
}

/// Relies on TracerProviderBuilder::with_resource: attaches the attributes.
#[verifier::external_body]
fn tracer_builder_resource(
    builder: opentelemetry_sdk::trace::TracerProviderBuilder,
    attrs: &Attributes,
) -> opentelemetry_sdk::trace::TracerProviderBuilder {
    builder.with_resource(attrs.resource.clone())
}

/// Relies on TracerProviderBuilder::with_span_processor and build: the trace
/// provider owning the processor.
#[verifier::external_body]
fn tracer_builder_finish(
    builder: opentelemetry_sdk::trace::TracerProviderBuilder,
    processor: opentelemetry_sdk::trace::BatchSpanProcessor,
) -> opentelemetry_sdk::trace::SdkTracerProvider {
    builder.with_span_processor(processor).build()
}

/// Relies on SdkMeterProvider::builder with with_periodic_exporter: a metrics
/// provider exporting periodically, with the provider's default resource.
#[verifier::external_body]
fn meter_provider(
    exporter: opentelemetry_otlp::MetricExporter,
) -> opentelemetry_sdk::metrics::SdkMeterProvider {
    opentelemetry_sdk::metrics::SdkMeterProvider::builder().with_periodic_exporter(
        exporter,
    ).build()
}

/// Relies on SdkMeterProvider::builder with with_resource and
/// with_periodic_exporter: a metrics provider exporting periodically and
/// carrying the attributes.
#[verifier::external_body]
fn meter_provider_with_resource(
    exporter: opentelemetry_otlp::MetricExporter,
    attrs: &Attributes,
) -> opentelemetry_sdk::metrics::SdkMeterProvider {
    opentelemetry_sdk::metrics::SdkMeterProvider::builder().with_resource(
        attrs.resource.clone(),
    ).with_periodic_exporter(exporter).build()
}

/// Relies on SdkLoggerProvider::shutdown_with_timeout: flushes and shuts the
/// provider down within the limit, reporting each failure variant for
/// variant.
#[verifier::external_body]
fn shutdown_logger(
    provider: opentelemetry_sdk::logs::SdkLoggerProvider,
    timeout_millis: u64,
) -> Result<(), ExportError> {
    match provider.shutdown_with_timeout(core::time::Duration::from_millis(timeout_millis)) {
        Ok(()) => Ok(()),
        Err(opentelemetry_sdk::error::OTelSdkError::AlreadyShutdown) => Err(
            ExportError::AlreadyShutdown,
        ),
        Err(opentelemetry_sdk::error::OTelSdkError::Timeout(_)) => Err(ExportError::Timeout),
        Err(opentelemetry_sdk::error::OTelSdkError::InternalFailure(m)) => Err(
            ExportError::Internal(m),
        ),
    }
}

/// Relies on SdkTracerProvider::shutdown_with_timeout: flushes and shuts the
/// provider down within the limit, reporting each failure variant for
/// variant.
#[verifier::external_body]
fn shutdown_tracer(
    provider: opentelemetry_sdk::trace::SdkTracerProvider,
    timeout_millis: u64,
) -> Result<(), ExportError> {
    match provider.shutdown_with_timeout(core::time::Duration::from_millis(timeout_millis)) {
        Ok(()) => Ok(()),
        Err(opentelemetry_sdk::error::OTelSdkError::AlreadyShutdown) => Err(
            ExportError::AlreadyShutdown,
        ),
        Err(opentelemetry_sdk::error::OTelSdkError::Timeout(_)) => Err(ExportError::Timeout),
        Err(opentelemetry_sdk::error::OTelSdkError::InternalFailure(m)) => Err(
            ExportError::Internal(m),
        ),
    }
}

/// Relies on SdkMeterProvider::shutdown_with_timeout: flushes and shuts the
/// provider down, reporting each failure variant for variant; this provider
/// applies its own internal bound and disregards the limit it is given.
#[verifier::external_body]
fn shutdown_meter(
    provider: opentelemetry_sdk::metrics::SdkMeterProvider,
    timeout_millis: u64,
) -> Result<(), ExportError> {
    match provider.shutdown_with_timeout(core::time::Duration::from_millis(timeout_millis)) {
        Ok(()) => Ok(()),
        Err(opentelemetry_sdk::error::OTelSdkError::AlreadyShutdown) => Err(
            ExportError::AlreadyShutdown,
        ),
        Err(opentelemetry_sdk::error::OTelSdkError::Timeout(_)) => Err(ExportError::Timeout),
        Err(opentelemetry_sdk::error::OTelSdkError::InternalFailure(m)) => Err(
            ExportError::Internal(m),
        ),
    }
}

} // verus!
