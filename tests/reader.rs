use otlp_pipeline::reader::{PeriodicReader, ReaderAction};

#[test]
fn hundred_ms_period_collects_at_least_nine_times_a_second() {
    let mut r = PeriodicReader::new(100, 50, 0);
    let mut collections = 0;
    let mut now: u64 = 0;
    while now <= 1000 {
        if r.tick(now) == ReaderAction::Collect {
            collections += 1;
        }
        now += 10;
    }
    assert!(collections >= 9);
    assert_eq!(collections, 10);
}

#[test]
fn tick_before_schedule_waits() {
    let mut r = PeriodicReader::new(100, 50, 1000);
    assert_eq!(r.next_collect_ms(), 1100);
    assert_eq!(r.tick(1099), ReaderAction::Wait);
    assert_eq!(r.tick(1150), ReaderAction::Collect);
    assert_eq!(r.next_collect_ms(), 1250);
}

#[test]
fn reader_shutdown_is_idempotent() {
    let mut r = PeriodicReader::new(100, 50, 0);
    assert_eq!(r.force_flush(), ReaderAction::Collect);
    assert_eq!(r.shutdown(), ReaderAction::CollectAndShutdown);
    assert_eq!(r.shutdown(), ReaderAction::Wait);
    assert!(r.is_shutdown());
    assert_eq!(r.tick(10_000), ReaderAction::Wait);
    assert_eq!(r.force_flush(), ReaderAction::Wait);
}

#[test]
fn reader_schedule_saturates() {
    let mut r = PeriodicReader::new(u64::MAX, 1, 5);
    assert_eq!(r.next_collect_ms(), u64::MAX);
    assert_eq!(r.tick(u64::MAX), ReaderAction::Collect);
    assert_eq!(r.interval_ms(), u64::MAX);
    assert_eq!(r.timeout_ms(), 1);
}
