use ecobridge::ecobridge_abi_version;
use ecobridge::persistence::{
    get_dropped_logs, get_total_logs, init_result_code, shutdown_result_code, writer_step,
    InitError, LogStats, WriterAction, SHUTDOWN_TS, WRITER_BATCH_MAX,
};

#[test]
fn abi_version_handshake() {
    assert_eq!(ecobridge_abi_version(), 0x0008_0700);
}

#[test]
fn fresh_counters_are_zero() {
    let s = LogStats::new();
    assert_eq!(get_total_logs(&s), 0);
    assert_eq!(get_dropped_logs(&s), 0);
}

#[test]
fn flood_with_full_channel_counts_every_event_and_drops_some() {
    // 60 000 events while the channel is full for the last 10 000: the
    // host stays responsive, every submission is counted, the refused
    // ones show up in the dropped counter.
    let mut s = LogStats::new();
    for i in 0..60_000u64 {
        let channel_accepted = i < 50_000;
        s.record_event(channel_accepted);
    }
    assert_eq!(get_total_logs(&s), 60_000);
    assert_eq!(get_dropped_logs(&s), 10_000);
    assert!(get_dropped_logs(&s) > 0);
}

#[test]
fn failed_flush_drops_the_whole_buffer() {
    let mut s = LogStats::new();
    for _ in 0..100 {
        s.record_event(true);
    }
    s.record_flush_failure(100);
    assert_eq!(get_total_logs(&s), 100);
    assert_eq!(get_dropped_logs(&s), 100);
}

#[test]
fn counters_wrap_like_the_hardware_counter() {
    let mut s = LogStats {
        total: u64::MAX,
        dropped: u64::MAX,
    };
    s.record_event(false);
    assert_eq!(s.total, 0);
    assert_eq!(s.dropped, 0);
}

#[test]
fn writer_collects_until_the_batch_is_full() {
    assert_eq!(writer_step(0, 1_700_000_000_000), WriterAction::Collect);
    assert_eq!(
        writer_step(WRITER_BATCH_MAX - 2, 1_700_000_000_000),
        WriterAction::Collect
    );
    assert_eq!(
        writer_step(WRITER_BATCH_MAX - 1, 1_700_000_000_000),
        WriterAction::CollectAndFlush
    );
}

#[test]
fn sentinel_event_stops_the_writer() {
    assert_eq!(writer_step(0, SHUTDOWN_TS), WriterAction::FlushAndStop);
    assert_eq!(writer_step(512, SHUTDOWN_TS), WriterAction::FlushAndStop);
}

#[test]
fn init_outcomes_map_to_their_boundary_codes() {
    assert_eq!(init_result_code(&Ok(())), 0);
    assert_eq!(init_result_code(&Err(InitError::NullPath)), -1);
    assert_eq!(init_result_code(&Err(InitError::PathNotUtf8)), -2);
    assert_eq!(init_result_code(&Err(InitError::OpenFailed)), -4);
    assert_eq!(init_result_code(&Err(InitError::SchemaFailed)), -5);
    assert_eq!(init_result_code(&Err(InitError::PoolFailed)), -6);
    assert_eq!(init_result_code(&Err(InitError::AlreadyInitialized)), -7);
}

#[test]
fn shutdown_needs_a_running_writer() {
    assert_eq!(shutdown_result_code(true), 0);
    assert_eq!(shutdown_result_code(false), -1);
}
