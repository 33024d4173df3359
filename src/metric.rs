//! The metric pipeline: selectors, reader schedule and exporter, built into
//! a meter provider.
use crate::error::ConfigurationError;
use crate::pipeline::{
    ExporterEndpoint, HttpExporterBuilder, NoExporterConfig, OtlpPipeline, Resource,
    TonicExporterBuilder, Transport,
};
use crate::reader::{DEFAULT_PERIOD_MS, DEFAULT_TIMEOUT_MS};
use crate::selector::{
    Aggregation, AggregationSelector, InstrumentKind, Temporality, TemporalitySelector,
    default_aggregation, delta_temporality,
};
use vstd::prelude::*;

verus! {

/// Target to which the exporter sends metrics.
pub const OTEL_EXPORTER_OTLP_METRICS_ENDPOINT: &'static str = "OTEL_EXPORTER_OTLP_METRICS_ENDPOINT";

/// Maximum time the collector may take to process each metrics batch.
pub const OTEL_EXPORTER_OTLP_METRICS_TIMEOUT: &'static str = "OTEL_EXPORTER_OTLP_METRICS_TIMEOUT";

/// Compression algorithm to use, defaults to none.
pub const OTEL_EXPORTER_OTLP_METRICS_COMPRESSION: &'static str =
    "OTEL_EXPORTER_OTLP_METRICS_COMPRESSION";

/// Key-value pairs sent as headers with each request, as `k1=v1,k2=v2`;
/// only the HTTP transport supports them.
pub const OTEL_EXPORTER_OTLP_METRICS_HEADERS: &'static str = "OTEL_EXPORTER_OTLP_METRICS_HEADERS";

/// The exporter of a metric pipeline, one variant per transport.
#[derive(Clone, Debug)]
pub enum MetricsExporterBuilder {
    Tonic(TonicExporterBuilder),
    Http(HttpExporterBuilder),
    /// No transport is available in this build.
    Unconfigured,
}

impl From<TonicExporterBuilder> for MetricsExporterBuilder {
    fn from(exporter: TonicExporterBuilder) -> (r: MetricsExporterBuilder)
        ensures
            r == MetricsExporterBuilder::Tonic(exporter),
    {
        MetricsExporterBuilder::Tonic(exporter)
    }
}

impl vstd::std_specs::convert::FromSpecImpl<TonicExporterBuilder> for MetricsExporterBuilder {
    open spec fn obeys_from_spec() -> bool {
        true
    }

    open spec fn from_spec(exporter: TonicExporterBuilder) -> MetricsExporterBuilder {
        MetricsExporterBuilder::Tonic(exporter)
    }
}

impl From<HttpExporterBuilder> for MetricsExporterBuilder {
    fn from(exporter: HttpExporterBuilder) -> (r: MetricsExporterBuilder)
        ensures
            r == MetricsExporterBuilder::Http(exporter),
    {
        MetricsExporterBuilder::Http(exporter)
    }
}

impl vstd::std_specs::convert::FromSpecImpl<HttpExporterBuilder> for MetricsExporterBuilder {
    open spec fn obeys_from_spec() -> bool {
        true
    }

    open spec fn from_spec(exporter: HttpExporterBuilder) -> MetricsExporterBuilder {
        MetricsExporterBuilder::Http(exporter)
    }
}

/// A metrics exporter resolved to its transport, with the selectors that the
/// aggregation consults before each collection.
#[derive(Clone, Debug)]
pub struct MetricsExporter {
    pub endpoint: ExporterEndpoint,
    pub temporality_selector: TemporalitySelector,
    pub aggregation_selector: AggregationSelector,
}

impl MetricsExporter {
    pub fn new(
        endpoint: ExporterEndpoint,
        temporality_selector: TemporalitySelector,
        aggregation_selector: AggregationSelector,
    ) -> (r: MetricsExporter)
        ensures
            r == (MetricsExporter { endpoint, temporality_selector, aggregation_selector }),
    {
        MetricsExporter { endpoint, temporality_selector, aggregation_selector }
    }

    pub fn temporality(&self, kind: InstrumentKind) -> (r: Temporality)
        ensures
            r == self.temporality_selector.select(kind),
    {
        self.temporality_selector.temporality(kind)
    }

    pub fn aggregation(&self, kind: InstrumentKind) -> (r: Aggregation)
        ensures
            r == self.aggregation_selector.select(kind),
    {
        self.aggregation_selector.aggregation(kind)
    }
}

impl MetricsExporterBuilder {
    /// The endpoint that the builder resolves to, if it names a transport.
    pub open spec fn resolved(self) -> Option<ExporterEndpoint> {
        match self {
            MetricsExporterBuilder::Tonic(b) => Some(
                ExporterEndpoint {
                    transport: Transport::Grpc,
                    endpoint: b.endpoint,
                    timeout_ms: b.timeout_ms,
                },
            ),
            MetricsExporterBuilder::Http(b) => Some(
                ExporterEndpoint {
                    transport: Transport::HttpProtobuf,
                    endpoint: b.endpoint,
                    timeout_ms: b.timeout_ms,
                },
            ),
            MetricsExporterBuilder::Unconfigured => None,
        }
    }

    /// Resolves the exporter once, at build time.
    pub fn build_metrics_exporter(
        self,
        temporality_selector: TemporalitySelector,
        aggregation_selector: AggregationSelector,
    ) -> (r: Result<MetricsExporter, ConfigurationError>)
        ensures
            match self.resolved() {
                Some(e) => r == Ok::<MetricsExporter, ConfigurationError>(
                    (MetricsExporter { endpoint: e, temporality_selector, aggregation_selector }),
                ),
                None => r == Err::<MetricsExporter, ConfigurationError>(
                    ConfigurationError::NoExporterConfigured,
                ),
            },
    {
        match self {
            MetricsExporterBuilder::Tonic(b) => Ok(
                MetricsExporter::new(
                    ExporterEndpoint {
                        transport: Transport::Grpc,
                        endpoint: b.endpoint,
                        timeout_ms: b.timeout_ms,
                    },
                    temporality_selector,
                    aggregation_selector,
                ),
            ),
            MetricsExporterBuilder::Http(b) => Ok(
                MetricsExporter::new(
                    ExporterEndpoint {
                        transport: Transport::HttpProtobuf,
                        endpoint: b.endpoint,
                        timeout_ms: b.timeout_ms,
                    },
                    temporality_selector,
                    aggregation_selector,
                ),
            ),
            MetricsExporterBuilder::Unconfigured => Err(ConfigurationError::NoExporterConfigured),
        }
    }
}

/// A built meter provider: its runtime, exporter, reader schedule and resource.
#[derive(Clone, Debug)]
pub struct MeterProvider<RT> {
    pub rt: RT,
    pub exporter: MetricsExporter,
    pub interval_ms: u64,
    pub timeout_ms: u64,
    pub resource: Option<Resource>,
}

/// A value that was set, else the default.
pub open spec fn or_default(v: Option<u64>, d: u64) -> u64 {
    match v {
        Some(x) => x,
        None => d,
    }
}

/// Cumulative temporality for every kind, the policy used where none is given.
pub open spec fn is_cumulative_policy(s: TemporalitySelector) -> bool {
    forall|k: InstrumentKind| s.select(k) == Temporality::Cumulative
}

/// Builder of a metric pipeline; `RT` is the runtime, `EB` the exporter
/// chosen so far.
#[derive(Debug)]
pub struct OtlpMetricPipeline<RT, EB> {
    rt: RT,
    aggregator_selector: Option<AggregationSelector>,
    temporality_selector: Option<TemporalitySelector>,
    exporter_pipeline: EB,
    resource: Option<Resource>,
    period_ms: Option<u64>,
    timeout_ms: Option<u64>,
}

impl OtlpPipeline {
    /// Starts a metric pipeline on the given runtime, with nothing else set.
    pub fn metrics<RT>(self, rt: RT) -> (r: OtlpMetricPipeline<RT, NoExporterConfig>)
        ensures
            r.rt_spec() == rt,
            r.aggregator_selector_spec() is None,
            r.temporality_selector_spec() is None,
            r.resource_spec() is None,
            r.period_spec() is None,
            r.timeout_spec() is None,
    {
        OtlpMetricPipeline {
            rt,
            aggregator_selector: None,
            temporality_selector: None,
            exporter_pipeline: NoExporterConfig,
            resource: None,
            period_ms: None,
            timeout_ms: None,
        }
    }
}

impl<RT, EB> OtlpMetricPipeline<RT, EB> {
    pub closed spec fn rt_spec(&self) -> RT {
        self.rt
    }

    pub closed spec fn aggregator_selector_spec(&self) -> Option<AggregationSelector> {
        self.aggregator_selector
    }

    pub closed spec fn temporality_selector_spec(&self) -> Option<TemporalitySelector> {
        self.temporality_selector
    }

    pub closed spec fn exporter_pipeline_spec(&self) -> EB {
        self.exporter_pipeline
    }

    pub closed spec fn resource_spec(&self) -> Option<Resource> {
        self.resource
    }

    pub closed spec fn period_spec(&self) -> Option<u64> {
        self.period_ms
    }

    pub closed spec fn timeout_spec(&self) -> Option<u64> {
        self.timeout_ms
    }

    /// Everything but the selectors, the resource, the period and the timeout
    /// is the same in both pipelines.
    pub open spec fn same_core(&self, other: &Self) -> bool {
        &&& self.rt_spec() == other.rt_spec()
        &&& self.exporter_pipeline_spec() == other.exporter_pipeline_spec()
    }

    /// Sets the resource of the provider.
    pub fn with_resource(self, resource: Resource) -> (r: Self)
        ensures
            r.same_core(&self),
            r.resource_spec() == Some(resource),
            r.aggregator_selector_spec() == self.aggregator_selector_spec(),
            r.temporality_selector_spec() == self.temporality_selector_spec(),
            r.period_spec() == self.period_spec(),
            r.timeout_spec() == self.timeout_spec(),
    {
        OtlpMetricPipeline { resource: Some(resource), ..self }
    }

    /// Sets the bound on each collect-and-export cycle, in milliseconds.
    pub fn with_timeout(self, timeout_ms: u64) -> (r: Self)
        ensures
            r.same_core(&self),
            r.timeout_spec() == Some(timeout_ms),
            r.resource_spec() == self.resource_spec(),
            r.aggregator_selector_spec() == self.aggregator_selector_spec(),
            r.temporality_selector_spec() == self.temporality_selector_spec(),
            r.period_spec() == self.period_spec(),
    {
        OtlpMetricPipeline { timeout_ms: Some(timeout_ms), ..self }
    }

    /// Sets the time between two collections, in milliseconds.
    pub fn with_period(self, period_ms: u64) -> (r: Self)
        ensures
            r.same_core(&self),
            r.period_spec() == Some(period_ms),
            r.resource_spec() == self.resource_spec(),
            r.aggregator_selector_spec() == self.aggregator_selector_spec(),
            r.temporality_selector_spec() == self.temporality_selector_spec(),
            r.timeout_spec() == self.timeout_spec(),
    {
        OtlpMetricPipeline { period_ms: Some(period_ms), ..self }
    }

    /// Sets the temporality selector.
    pub fn with_temporality_selector(self, selector: TemporalitySelector) -> (r: Self)
        ensures
            r.same_core(&self),
            r.temporality_selector_spec() == Some(selector),
            r.resource_spec() == self.resource_spec(),
            r.aggregator_selector_spec() == self.aggregator_selector_spec(),
            r.period_spec() == self.period_spec(),
            r.timeout_spec() == self.timeout_spec(),
    {
        OtlpMetricPipeline { temporality_selector: Some(selector), ..self }
    }

    /// Selects delta temporality for every kind but the up/down counters.
    pub fn with_delta_temporality(self) -> (r: Self)
        ensures
            r.same_core(&self),
            r.temporality_selector_spec() is Some,
            forall|k: InstrumentKind|
                r.temporality_selector_spec()->0.select(k) == delta_temporality(k),
            r.resource_spec() == self.resource_spec(),
            r.aggregator_selector_spec() == self.aggregator_selector_spec(),
            r.period_spec() == self.period_spec(),
            r.timeout_spec() == self.timeout_spec(),
    {
        self.with_temporality_selector(TemporalitySelector::delta())
    }

    /// Sets the aggregation selector.
    pub fn with_aggregation_selector(self, selector: AggregationSelector) -> (r: Self)
        ensures
            r.same_core(&self),
            r.aggregator_selector_spec() == Some(selector),
            r.resource_spec() == self.resource_spec(),
            r.temporality_selector_spec() == self.temporality_selector_spec(),
            r.period_spec() == self.period_spec(),
            r.timeout_spec() == self.timeout_spec(),
    {
        OtlpMetricPipeline { aggregator_selector: Some(selector), ..self }
    }
}

impl<RT> OtlpMetricPipeline<RT, NoExporterConfig> {
    /// Chooses the exporter; only a pipeline with one can be built.
    pub fn with_exporter(self, pipeline: MetricsExporterBuilder) -> (r: OtlpMetricPipeline<
        RT,
        MetricsExporterBuilder,
    >)
        ensures
            r.exporter_pipeline_spec() == pipeline,
            r.rt_spec() == self.rt_spec(),
            r.resource_spec() == self.resource_spec(),
            r.aggregator_selector_spec() == self.aggregator_selector_spec(),
            r.temporality_selector_spec() == self.temporality_selector_spec(),
            r.period_spec() == self.period_spec(),
            r.timeout_spec() == self.timeout_spec(),
    {
        OtlpMetricPipeline {
            exporter_pipeline: pipeline,
            rt: self.rt,
            aggregator_selector: self.aggregator_selector,
            temporality_selector: self.temporality_selector,
            resource: self.resource,
            period_ms: self.period_ms,
            timeout_ms: self.timeout_ms,
        }
    }
}

impl<RT> OtlpMetricPipeline<RT, MetricsExporterBuilder> {
    /// Builds the meter provider: the exporter with the chosen selectors (by
    /// default cumulative temporality and the default aggregations), and the
    /// reader schedule (by default one collection a minute, each bounded by
    /// thirty seconds).
    pub fn build(self) -> (r: Result<MeterProvider<RT>, ConfigurationError>)
        ensures
            self.exporter_pipeline_spec().resolved() is None <==> r is Err,
            r is Err ==> r->Err_0 == ConfigurationError::NoExporterConfigured,
            r is Ok ==> {
                let p = r->Ok_0;
                &&& p.rt == self.rt_spec()
                &&& Some(p.exporter.endpoint) == self.exporter_pipeline_spec().resolved()
                &&& match self.temporality_selector_spec() {
                    Some(s) => p.exporter.temporality_selector == s,
                    None => is_cumulative_policy(p.exporter.temporality_selector),
                }
                &&& match self.aggregator_selector_spec() {
                    Some(s) => p.exporter.aggregation_selector == s,
                    None => forall|k: InstrumentKind|
                        p.exporter.aggregation_selector.select(k) == default_aggregation(k),
                }
                &&& p.interval_ms == or_default(self.period_spec(), DEFAULT_PERIOD_MS)
                &&& p.timeout_ms == or_default(self.timeout_spec(), DEFAULT_TIMEOUT_MS)
                &&& p.resource == self.resource_spec()
            },
    {
        let temporality_selector = match self.temporality_selector {
            Some(s) => s,
            None => TemporalitySelector::cumulative(),
        };
        let aggregation_selector = match self.aggregator_selector {
            Some(s) => s,
            None => AggregationSelector::default_policy(),
        };
        let exporter = match self.exporter_pipeline.build_metrics_exporter(
            temporality_selector,
            aggregation_selector,
        ) {
            Ok(e) => e,
            Err(e) => return Err(e),
        };
        let interval_ms = match self.period_ms {
            Some(p) => p,
            None => DEFAULT_PERIOD_MS,
        };
        let timeout_ms = match self.timeout_ms {
            Some(t) => t,
            None => DEFAULT_TIMEOUT_MS,
        };
        Ok(MeterProvider { rt: self.rt, exporter, interval_ms, timeout_ms, resource: self.resource })
    }
}

} // verus!
