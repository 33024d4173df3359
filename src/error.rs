//! Errors surfaced to the code that configures a pipeline.
use vstd::prelude::*;

verus! {

/// A configuration that cannot produce a running pipeline; reported at build time.
#[derive(Clone, Copy, Debug, PartialEq, Eq, Structural)]
pub enum ConfigurationError {
    /// The chosen exporter has no transport available in this build.
    NoExporterConfigured,
    /// A batch configuration with an empty queue or an empty batch.
    InvalidBatchConfig,
}

} // verus!
