use otlp_pipeline::batch::{BatchConfig, BatchLogProcessor};
use otlp_pipeline::error::ConfigurationError;

fn config(queue: usize, delay_ms: u64, batch: usize) -> BatchConfig {
    BatchConfig::new(queue, delay_ms, batch, 30000).unwrap()
}

#[test]
fn flush_returns_emitted_records_in_order() {
    let mut p = BatchLogProcessor::new(config(10, 1000, 3));
    for i in 0..7u32 {
        assert!(p.emit(i));
    }
    let batches = p.force_flush();
    assert_eq!(batches, vec![vec![0, 1, 2], vec![3, 4, 5], vec![6]]);
    assert_eq!(p.queue_len(), 0);
    assert_eq!(p.dropped_count(), 0);
}

#[test]
fn flush_of_full_queue_keeps_every_record() {
    let mut p = BatchLogProcessor::new(config(8, 1000, 4));
    for i in 0..8u32 {
        assert!(p.emit(i));
    }
    let flat: Vec<u32> = p.force_flush().into_iter().flatten().collect();
    assert_eq!(flat, (0..8).collect::<Vec<u32>>());
}

#[test]
fn flush_of_empty_queue_exports_nothing() {
    let mut p: BatchLogProcessor<u32> = BatchLogProcessor::new(config(8, 1000, 4));
    assert!(p.force_flush().is_empty());
}

#[test]
fn emit_beyond_capacity_drops_newest() {
    let mut p = BatchLogProcessor::new(config(4, 1000, 2));
    let accepted: Vec<bool> = (0..6u32).map(|i| p.emit(i)).collect();
    assert_eq!(accepted, vec![true, true, true, true, false, false]);
    assert_eq!(p.queue_len(), 4);
    assert_eq!(p.dropped_count(), 2);
    assert_eq!(p.force_flush(), vec![vec![0, 1], vec![2, 3]]);
}

#[test]
fn shutdown_is_idempotent() {
    let mut p = BatchLogProcessor::new(config(10, 1000, 2));
    for i in 0..3u32 {
        p.emit(i);
    }
    assert_eq!(p.shutdown(), Some(vec![vec![0, 1], vec![2]]));
    assert!(p.is_shutdown());
    assert_eq!(p.shutdown(), None);
    assert!(!p.emit(9));
    assert_eq!(p.queue_len(), 0);
    assert_eq!(p.poll(u64::MAX), None);
}

#[test]
fn scheduled_delay_scenario_exports_all_records() {
    let mut p = BatchLogProcessor::new(config(2048, 5000, 512));
    for i in 0..1000u32 {
        assert!(p.emit(i));
    }
    let first = p.poll(5000).unwrap();
    assert_eq!(first.len(), 512);
    p.record_export_result(true);
    let second = p.poll(5000).unwrap();
    assert_eq!(second.len(), 488);
    assert_eq!(first.len() + second.len(), 1000);
    assert_eq!(first[0], 0);
    assert_eq!(second[0], 512);
    p.record_export_result(true);
    assert_eq!(p.poll(5000), None);
}

#[test]
fn poll_waits_for_delay_or_full_batch() {
    let mut p = BatchLogProcessor::new(config(100, 1000, 3));
    p.emit(1u32);
    p.emit(2u32);
    assert_eq!(p.poll(999), None);
    assert_eq!(p.poll(1000), Some(vec![1, 2]));
    p.record_export_result(true);
    for i in 0..3u32 {
        p.emit(i);
    }
    assert_eq!(p.poll(0), Some(vec![0, 1, 2]));
    assert_eq!(p.poll(5000), None);
}

#[test]
fn export_failures_are_counted() {
    let mut p: BatchLogProcessor<u32> = BatchLogProcessor::new(config(4, 10, 2));
    p.record_export_result(true);
    p.record_export_result(false);
    p.record_export_result(false);
    assert_eq!(p.failed_export_count(), 2);
}

#[test]
fn batch_config_rejects_empty_queue_or_batch() {
    assert_eq!(BatchConfig::new(0, 1, 1, 1).unwrap_err(), ConfigurationError::InvalidBatchConfig);
    assert_eq!(BatchConfig::new(4, 1, 0, 1).unwrap_err(), ConfigurationError::InvalidBatchConfig);
}

#[test]
fn batch_config_caps_batch_at_queue_size() {
    let c = BatchConfig::new(100, 7, 512, 9).unwrap();
    assert_eq!(c.max_export_batch_size, 100);
    assert_eq!(c.max_queue_size, 100);
    assert_eq!(c.scheduled_delay_ms, 7);
    assert_eq!(c.max_export_timeout_ms, 9);
    assert!(c.is_valid());
}

#[test]
fn batch_config_defaults() {
    let c = BatchConfig::default();
    assert_eq!(c.max_queue_size, 2048);
    assert_eq!(c.scheduled_delay_ms, 1000);
    assert_eq!(c.max_export_batch_size, 512);
    assert_eq!(c.max_export_timeout_ms, 30000);
    let bad = BatchConfig { max_export_batch_size: 4096, ..c };
    assert!(!bad.is_valid());
}

#[test]
fn one_export_in_flight_at_a_time() {
    let mut p = BatchLogProcessor::new(config(100, 1000, 2));
    for i in 0..6u32 {
        p.emit(i);
    }
    assert_eq!(p.poll(0), Some(vec![0, 1]));
    assert!(p.is_export_in_flight());
    assert_eq!(p.poll(5000), None);
    p.record_export_result(false);
    assert!(!p.is_export_in_flight());
    assert_eq!(p.poll(0), Some(vec![2, 3]));
    assert_eq!(p.failed_export_count(), 1);
}
