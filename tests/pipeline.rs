use otlp_pipeline::batch::BatchConfig;
use otlp_pipeline::error::ConfigurationError;
use otlp_pipeline::logs::{LogExporterBuilder, LogProcessorKind};
use otlp_pipeline::metric::MetricsExporterBuilder;
use otlp_pipeline::pipeline::{
    new_pipeline, HttpExporterBuilder, Resource, TonicExporterBuilder, Transport,
};
use otlp_pipeline::selector::{Aggregation, AggregationSelector, InstrumentKind, Temporality};

fn resource() -> Resource {
    Resource::new(vec![("service.name".to_string(), "checkout".to_string())])
}

#[test]
fn install_simple_with_tonic() {
    let provider = new_pipeline()
        .logging()
        .with_resource(resource())
        .with_exporter(TonicExporterBuilder::new().into())
        .install_simple()
        .unwrap();
    assert!(matches!(provider.processor, LogProcessorKind::Simple));
    assert_eq!(provider.exporter.endpoint.transport, Transport::Grpc);
    assert_eq!(provider.exporter.endpoint.endpoint, "http://localhost:4317");
    assert_eq!(provider.exporter.endpoint.timeout_ms, 10000);
    assert_eq!(provider.resource.unwrap().attributes.len(), 1);
}

#[test]
fn install_batch_uses_default_config() {
    let provider = new_pipeline()
        .logging()
        .with_exporter(LogExporterBuilder::from(
            HttpExporterBuilder::new().with_endpoint("http://collector:4318".to_string()),
        ))
        .install_batch()
        .unwrap();
    match provider.processor {
        LogProcessorKind::Batch(c) => {
            assert_eq!(c.max_queue_size, 2048);
            assert_eq!(c.max_export_batch_size, 512);
        }
        LogProcessorKind::Simple => panic!("expected a batch processor"),
    }
    assert_eq!(provider.exporter.endpoint.transport, Transport::HttpProtobuf);
    assert_eq!(provider.exporter.endpoint.endpoint, "http://collector:4318");
    assert!(provider.resource.is_none());
}

#[test]
fn install_batch_uses_given_config() {
    let cfg = BatchConfig::new(16, 5, 4, 100).unwrap();
    let provider = new_pipeline()
        .logging()
        .with_batch_config(cfg)
        .with_exporter(TonicExporterBuilder::new().with_timeout(250).into())
        .install_batch()
        .unwrap();
    match provider.processor {
        LogProcessorKind::Batch(c) => assert_eq!(c.max_export_batch_size, 4),
        LogProcessorKind::Simple => panic!("expected a batch processor"),
    }
    assert_eq!(provider.exporter.endpoint.timeout_ms, 250);
}

#[test]
fn install_batch_rejects_invalid_config() {
    let bad = BatchConfig {
        max_queue_size: 4,
        scheduled_delay_ms: 1,
        max_export_batch_size: 8,
        max_export_timeout_ms: 1,
    };
    let err = new_pipeline()
        .logging()
        .with_batch_config(bad)
        .with_exporter(TonicExporterBuilder::new().into())
        .install_batch()
        .unwrap_err();
    assert_eq!(err, ConfigurationError::InvalidBatchConfig);
}

#[test]
fn unconfigured_log_exporter_fails_fast() {
    let err = new_pipeline()
        .logging()
        .with_exporter(LogExporterBuilder::Unconfigured)
        .install_simple()
        .unwrap_err();
    assert_eq!(err, ConfigurationError::NoExporterConfigured);
}

#[test]
fn metrics_build_with_defaults() {
    let provider = new_pipeline()
        .metrics("rt")
        .with_exporter(MetricsExporterBuilder::from(TonicExporterBuilder::new()))
        .build()
        .unwrap();
    assert_eq!(provider.rt, "rt");
    assert_eq!(provider.interval_ms, 60000);
    assert_eq!(provider.timeout_ms, 30000);
    assert_eq!(provider.exporter.temporality(InstrumentKind::Counter), Temporality::Cumulative);
    assert_eq!(provider.exporter.aggregation(InstrumentKind::Gauge), Aggregation::LastValue);
    assert!(provider.resource.is_none());
}

#[test]
fn metrics_build_with_settings() {
    let mut agg = AggregationSelector::default_policy();
    agg.counter = Aggregation::Drop;
    let provider = new_pipeline()
        .metrics(())
        .with_resource(resource())
        .with_period(100)
        .with_timeout(40)
        .with_delta_temporality()
        .with_aggregation_selector(agg)
        .with_exporter(HttpExporterBuilder::new().into())
        .build()
        .unwrap();
    assert_eq!(provider.interval_ms, 100);
    assert_eq!(provider.timeout_ms, 40);
    assert_eq!(provider.exporter.temporality(InstrumentKind::Counter), Temporality::Delta);
    assert_eq!(
        provider.exporter.temporality(InstrumentKind::UpDownCounter),
        Temporality::Cumulative
    );
    assert_eq!(provider.exporter.aggregation(InstrumentKind::Counter), Aggregation::Drop);
    assert_eq!(provider.exporter.endpoint.endpoint, "http://localhost:4318");
    assert!(provider.resource.is_some());
}

#[test]
fn unconfigured_metrics_exporter_fails_fast() {
    let err = new_pipeline()
        .metrics(())
        .with_exporter(MetricsExporterBuilder::Unconfigured)
        .build()
        .unwrap_err();
    assert_eq!(err, ConfigurationError::NoExporterConfigured);
}
