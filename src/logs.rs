//! The log pipeline: choose an exporter, then install a provider with a
//! simple or a batch processor.
use crate::batch::{BatchConfig, default_batch_config};
use crate::error::ConfigurationError;
use crate::pipeline::{
    ExporterEndpoint, HttpExporterBuilder, NoExporterConfig, OtlpPipeline, Resource,
    TonicExporterBuilder, Transport,
};
use vstd::prelude::*;

verus! {

/// Compression algorithm to use, defaults to none.
pub const OTEL_EXPORTER_OTLP_LOGS_COMPRESSION: &'static str = "OTEL_EXPORTER_OTLP_LOGS_COMPRESSION";

/// Target to which the exporter is going to send logs.
pub const OTEL_EXPORTER_OTLP_LOGS_ENDPOINT: &'static str = "OTEL_EXPORTER_OTLP_LOGS_ENDPOINT";

/// Maximum time the exporter waits for each batch export.
pub const OTEL_EXPORTER_OTLP_LOGS_TIMEOUT: &'static str = "OTEL_EXPORTER_OTLP_LOGS_TIMEOUT";

/// Key-value pairs sent as headers with each request, as `k1=v1,k2=v2`;
/// only the HTTP transport supports them.
pub const OTEL_EXPORTER_OTLP_LOGS_HEADERS: &'static str = "OTEL_EXPORTER_OTLP_LOGS_HEADERS";

/// The exporter of a log pipeline, one variant per transport.
#[derive(Clone, Debug)]
pub enum LogExporterBuilder {
    Tonic(TonicExporterBuilder),
    Http(HttpExporterBuilder),
    /// No transport is available in this build.
    Unconfigured,
}

impl From<TonicExporterBuilder> for LogExporterBuilder {
    fn from(exporter: TonicExporterBuilder) -> (r: LogExporterBuilder)
        ensures
            r == LogExporterBuilder::Tonic(exporter),
    {
        LogExporterBuilder::Tonic(exporter)
    }
}

impl vstd::std_specs::convert::FromSpecImpl<TonicExporterBuilder> for LogExporterBuilder {
    open spec fn obeys_from_spec() -> bool {
        true
    }

    open spec fn from_spec(exporter: TonicExporterBuilder) -> LogExporterBuilder {
        LogExporterBuilder::Tonic(exporter)
    }
}

impl From<HttpExporterBuilder> for LogExporterBuilder {
    fn from(exporter: HttpExporterBuilder) -> (r: LogExporterBuilder)
        ensures
            r == LogExporterBuilder::Http(exporter),
    {
        LogExporterBuilder::Http(exporter)
    }
}

impl vstd::std_specs::convert::FromSpecImpl<HttpExporterBuilder> for LogExporterBuilder {
    open spec fn obeys_from_spec() -> bool {
        true
    }

    open spec fn from_spec(exporter: HttpExporterBuilder) -> LogExporterBuilder {
        LogExporterBuilder::Http(exporter)
    }
}

/// A log exporter resolved to its transport.
#[derive(Clone, Debug)]
pub struct LogExporter {
    pub endpoint: ExporterEndpoint,
}

impl LogExporter {
    pub fn new(endpoint: ExporterEndpoint) -> (r: LogExporter)
        ensures
            r == (LogExporter { endpoint }),
    {
        LogExporter { endpoint }
    }
}

impl LogExporterBuilder {
    /// The endpoint that the builder resolves to, if it names a transport.
    pub open spec fn resolved(self) -> Option<ExporterEndpoint> {
        match self {
            LogExporterBuilder::Tonic(b) => Some(
                ExporterEndpoint {
                    transport: Transport::Grpc,
                    endpoint: b.endpoint,
                    timeout_ms: b.timeout_ms,
                },
            ),
            LogExporterBuilder::Http(b) => Some(
                ExporterEndpoint {
                    transport: Transport::HttpProtobuf,
                    endpoint: b.endpoint,
                    timeout_ms: b.timeout_ms,
                },
            ),
            LogExporterBuilder::Unconfigured => None,
        }
    }

    /// Resolves the exporter once, at build time.
    pub fn build_log_exporter(self) -> (r: Result<LogExporter, ConfigurationError>)
        ensures
            match self.resolved() {
                Some(e) => r == Ok::<LogExporter, ConfigurationError>((LogExporter { endpoint: e })),
                None => r == Err::<LogExporter, ConfigurationError>(
                    ConfigurationError::NoExporterConfigured,
                ),
            },
    {
        match self {
            LogExporterBuilder::Tonic(b) => Ok(
                LogExporter::new(
                    ExporterEndpoint {
                        transport: Transport::Grpc,
                        endpoint: b.endpoint,
                        timeout_ms: b.timeout_ms,
                    },
                ),
            ),
            LogExporterBuilder::Http(b) => Ok(
                LogExporter::new(
                    ExporterEndpoint {
                        transport: Transport::HttpProtobuf,
                        endpoint: b.endpoint,
                        timeout_ms: b.timeout_ms,
                    },
                ),
            ),
            LogExporterBuilder::Unconfigured => Err(ConfigurationError::NoExporterConfigured),
        }
    }
}

/// How a provider hands records to its exporter.
#[derive(Clone, Copy, Debug)]
pub enum LogProcessorKind {
    /// Each record is exported as it is emitted.
    Simple,
    /// Records are queued and exported in batches.
    Batch(BatchConfig),
}

/// An installed log provider: its exporter, processor and resource.
#[derive(Clone, Debug)]
pub struct LoggerProvider {
    pub exporter: LogExporter,
    pub processor: LogProcessorKind,
    pub resource: Option<Resource>,
}

/// A given batch configuration must be valid; none means the default.
pub open spec fn batch_config_ok(c: Option<BatchConfig>) -> bool {
    match c {
        Some(c) => c.wf(),
        None => true,
    }
}

/// The batch configuration in force: the one given, else the default.
pub open spec fn effective_batch_config(c: Option<BatchConfig>) -> BatchConfig {
    match c {
        Some(c) => c,
        None => default_batch_config(),
    }
}

/// Builder of a log pipeline; `EB` is the exporter chosen so far.
#[derive(Debug)]
pub struct OtlpLogPipeline<EB> {
    exporter_builder: EB,
    resource: Option<Resource>,
    batch_config: Option<BatchConfig>,
}

impl OtlpPipeline {
    /// Starts a log pipeline with no exporter, resource or batch configuration.
    pub fn logging(self) -> (r: OtlpLogPipeline<NoExporterConfig>)
        ensures
            r.resource_spec() is None,
            r.batch_config_spec() is None,
    {
        OtlpLogPipeline { resource: None, exporter_builder: NoExporterConfig, batch_config: None }
    }
}

impl<EB> OtlpLogPipeline<EB> {
    pub closed spec fn exporter_builder_spec(&self) -> EB {
        self.exporter_builder
    }

    pub closed spec fn resource_spec(&self) -> Option<Resource> {
        self.resource
    }

    pub closed spec fn batch_config_spec(&self) -> Option<BatchConfig> {
        self.batch_config
    }

    /// Sets the resource of the provider.
    pub fn with_resource(self, resource: Resource) -> (r: Self)
        ensures
            r.resource_spec() == Some(resource),
            r.exporter_builder_spec() == self.exporter_builder_spec(),
            r.batch_config_spec() == self.batch_config_spec(),
    {
        OtlpLogPipeline { resource: Some(resource), ..self }
    }

    /// Sets the batch processor configuration.
    pub fn with_batch_config(self, batch_config: BatchConfig) -> (r: Self)
        ensures
            r.batch_config_spec() == Some(batch_config),
            r.exporter_builder_spec() == self.exporter_builder_spec(),
            r.resource_spec() == self.resource_spec(),
    {
        let mut p = self;
        p.batch_config = Some(batch_config);
        p
    }
}

impl OtlpLogPipeline<NoExporterConfig> {
    /// Chooses the exporter; only a pipeline with one can be installed.
    pub fn with_exporter(self, pipeline: LogExporterBuilder) -> (r: OtlpLogPipeline<
        LogExporterBuilder,
    >)
        ensures
            r.exporter_builder_spec() == pipeline,
            r.resource_spec() == self.resource_spec(),
            r.batch_config_spec() == self.batch_config_spec(),
    {
        OtlpLogPipeline {
            exporter_builder: pipeline,
            resource: self.resource,
            batch_config: self.batch_config,
        }
    }
}

impl OtlpLogPipeline<LogExporterBuilder> {
    /// Installs a provider that exports each record as it is emitted.
    pub fn install_simple(self) -> (r: Result<LoggerProvider, ConfigurationError>)
        ensures
            match self.exporter_builder_spec().resolved() {
                Some(e) => r == Ok::<LoggerProvider, ConfigurationError>(
                    (LoggerProvider {
                        exporter: LogExporter { endpoint: e },
                        processor: LogProcessorKind::Simple,
                        resource: self.resource_spec(),
                    }),
                ),
                None => r == Err::<LoggerProvider, ConfigurationError>(
                    ConfigurationError::NoExporterConfigured,
                ),
            },
    {
        let exporter = match self.exporter_builder.build_log_exporter() {
            Ok(e) => e,
            Err(e) => return Err(e),
        };
        Ok(build_simple_with_exporter(exporter, self.resource))
    }

    /// Installs a provider with a batch processor, configured as given or by
    /// default.
    pub fn install_batch(self) -> (r: Result<LoggerProvider, ConfigurationError>)
        ensures
            match self.exporter_builder_spec().resolved() {
                Some(e) => if batch_config_ok(self.batch_config_spec()) {
                    r == Ok::<LoggerProvider, ConfigurationError>(
                        (LoggerProvider {
                            exporter: LogExporter { endpoint: e },
                            processor: LogProcessorKind::Batch(
                                effective_batch_config(self.batch_config_spec()),
                            ),
                            resource: self.resource_spec(),
                        }),
                    )
                } else {
                    r == Err::<LoggerProvider, ConfigurationError>(
                        ConfigurationError::InvalidBatchConfig,
                    )
                },
                None => r == Err::<LoggerProvider, ConfigurationError>(
                    ConfigurationError::NoExporterConfigured,
                ),
            },
    {
        let exporter = match self.exporter_builder.build_log_exporter() {
            Ok(e) => e,
            Err(e) => return Err(e),
        };
        build_batch_with_exporter(exporter, self.resource, self.batch_config)
    }
}

fn build_simple_with_exporter(exporter: LogExporter, resource: Option<Resource>) -> (r:
    LoggerProvider)
    ensures
        r == (LoggerProvider { exporter, processor: LogProcessorKind::Simple, resource }),
{
    LoggerProvider { exporter, processor: LogProcessorKind::Simple, resource }
}

fn build_batch_with_exporter(
    exporter: LogExporter,
    resource: Option<Resource>,
    batch_config: Option<BatchConfig>,
) -> (r: Result<LoggerProvider, ConfigurationError>)
    ensures
        batch_config_ok(batch_config) ==> r == Ok::<LoggerProvider, ConfigurationError>(
            (LoggerProvider {
                exporter,
                processor: LogProcessorKind::Batch(effective_batch_config(batch_config)),
                resource,
            }),
        ),
        !batch_config_ok(batch_config) ==> r == Err::<LoggerProvider, ConfigurationError>(
            ConfigurationError::InvalidBatchConfig,
        ),
{
    let config = match batch_config {
        Some(c) => {
            if !c.is_valid() {
                return Err(ConfigurationError::InvalidBatchConfig);
            }
            c
        },
        None => BatchConfig::default(),
    };
    Ok(LoggerProvider { exporter, processor: LogProcessorKind::Batch(config), resource })
}

} // verus!
