//! Batching and export pipeline for telemetry: a bounded batch processor for
//! log records, a periodic metric reader, temporality and aggregation
//! selection, and typestate builders that wire them into a provider.
pub mod batch;
pub mod error;
pub mod logs;
pub mod metric;
pub mod pipeline;
pub mod reader;
pub mod selector;
