//! Pieces shared by the log and metric pipelines: the entry point, the
//! typestate marker, the resource and the transport builders.
use vstd::prelude::*;

verus! {

/// Default endpoint of the gRPC transport.
pub const DEFAULT_GRPC_ENDPOINT: &'static str = "http://localhost:4317";

/// Default endpoint of the plain-HTTP transport.
pub const DEFAULT_HTTP_ENDPOINT: &'static str = "http://localhost:4318";

/// Default bound on one request to the collector, in milliseconds.
pub const DEFAULT_EXPORT_TIMEOUT_MS: u64 = 10000;

/// Entry point of the pipeline builders.
#[derive(Clone, Copy, Debug)]
pub struct OtlpPipeline;

/// Starts a pipeline.
pub fn new_pipeline() -> (r: OtlpPipeline) {
    OtlpPipeline
}

/// Typestate marker: no exporter has been chosen yet, so nothing can be
/// installed or built.
#[derive(Clone, Copy, Debug)]
pub struct NoExporterConfig;

/// The attribute set that identifies the process producing telemetry; fixed
/// once the provider is built.
#[derive(Clone, Debug)]
pub struct Resource {
    pub attributes: Vec<(String, String)>,
}

impl Resource {
    pub fn new(attributes: Vec<(String, String)>) -> (r: Resource)
        ensures
            r.attributes@ == attributes@,
    {
        Resource { attributes }
    }

    pub fn empty() -> (r: Resource)
        ensures
            r.attributes@.len() == 0,
    {
        Resource { attributes: Vec::new() }
    }
}

/// The transports an exporter can send over.
#[derive(Clone, Copy, Debug, PartialEq, Eq, Structural)]
pub enum Transport {
    Grpc,
    HttpProtobuf,
}

/// Where and how a resolved exporter sends its batches.
#[derive(Clone, Debug)]
pub struct ExporterEndpoint {
    pub transport: Transport,
    pub endpoint: String,
    pub timeout_ms: u64,
}

/// Settings of the gRPC transport.
#[derive(Clone, Debug)]
pub struct TonicExporterBuilder {
    pub endpoint: String,
    pub timeout_ms: u64,
}

impl TonicExporterBuilder {
    pub fn new() -> (r: TonicExporterBuilder)
        ensures
            r.endpoint@ == DEFAULT_GRPC_ENDPOINT@,
            r.timeout_ms == DEFAULT_EXPORT_TIMEOUT_MS,
    {
        TonicExporterBuilder {
            endpoint: DEFAULT_GRPC_ENDPOINT.to_owned(),
            timeout_ms: DEFAULT_EXPORT_TIMEOUT_MS,
        }
    }

    pub fn with_endpoint(self, endpoint: String) -> (r: TonicExporterBuilder)
        ensures
            r.endpoint == endpoint,
            r.timeout_ms == self.timeout_ms,
    {
        TonicExporterBuilder { endpoint, ..self }
    }

    pub fn with_timeout(self, timeout_ms: u64) -> (r: TonicExporterBuilder)
        ensures
            r.endpoint == self.endpoint,
            r.timeout_ms == timeout_ms,
    {
        TonicExporterBuilder { timeout_ms, ..self }
    }
}

/// Settings of the plain-HTTP transport.
#[derive(Clone, Debug)]
pub struct HttpExporterBuilder {
    pub endpoint: String,
    pub timeout_ms: u64,
}

impl HttpExporterBuilder {
    pub fn new() -> (r: HttpExporterBuilder)
        ensures
            r.endpoint@ == DEFAULT_HTTP_ENDPOINT@,
            r.timeout_ms == DEFAULT_EXPORT_TIMEOUT_MS,
    {
        HttpExporterBuilder {
            endpoint: DEFAULT_HTTP_ENDPOINT.to_owned(),
            timeout_ms: DEFAULT_EXPORT_TIMEOUT_MS,
        }
    }

    pub fn with_endpoint(self, endpoint: String) -> (r: HttpExporterBuilder)
        ensures
            r.endpoint == endpoint,
            r.timeout_ms == self.timeout_ms,
    {
        HttpExporterBuilder { endpoint, ..self }
    }

    pub fn with_timeout(self, timeout_ms: u64) -> (r: HttpExporterBuilder)
        ensures
            r.endpoint == self.endpoint,
            r.timeout_ms == timeout_ms,
    {
        HttpExporterBuilder { timeout_ms, ..self }
    }
}

} // verus!
