use pylontech_mqtt_adapter::stats::{format_bytes, format_duration, format_summary, RuntimeStats, StatsDelta, StatsSnapshot};

#[test]
fn format_summary_includes_totals_and_interval_delta() {
    let snapshot = StatsSnapshot {
        uptime_secs: 301,
        successful_cycles: 600,
        mqtt_messages_sent: 1200,
        recoveries: 2,
        source_bytes_read: 12_288,
        source_bytes_written: 2_048,
        source_frames_read: 900,
        source_frames_written: 905,
        source_timeouts: 1,
        source_errors: 3,
    };
    let delta = StatsDelta {
        successful_cycles: 300,
        mqtt_messages_sent: 600,
        recoveries: 1,
        source_bytes_read: 4_096,
        source_bytes_written: 1_024,
        source_frames_read: 450,
        source_frames_written: 452,
        source_timeouts: 1,
        source_errors: 2,
    };

    let summary = format_summary(&snapshot, &delta);

    assert!(summary.contains("alive: uptime=00:05:01"));
    assert!(summary.contains("cycles=600 (+300)"));
    assert!(summary.contains("mqtt_messages=1200 (+600)"));
    assert!(summary.contains("recoveries=2 (+1)"));
    assert!(summary.contains("source_rx=12.0KiB (+4.0KiB)"));
    assert!(summary.contains("source_tx=2.0KiB (+1.0KiB)"));
    assert!(summary.contains("timeouts=1 (+1)"));
    assert!(summary.contains("source_errors=3 (+2)"));
}

fn float_bytes(bytes: u64) -> String {
    const KIB: f64 = 1024.0;
    const MIB: f64 = KIB * 1024.0;
    if bytes < 1024 {
        return format!("{bytes}B");
    }
    let bytes_f64 = bytes as f64;
    if bytes_f64 < MIB {
        return format!("{:.1}KiB", bytes_f64 / KIB);
    }
    format!("{:.1}MiB", bytes_f64 / MIB)
}

#[test]
fn byte_counts_match_double_formatting() {
    let mut samples: Vec<u64> = vec![
        0, 1, 1023, 1024, 1075, 1280, 1331, 1536, 1048575, 1048576, 1101004, 1310720, 123456789, 9007199254740991,
        9007199254740993, 9007199254740995, 18014398509481985, u64::MAX, u64::MAX - 1024, 1 << 63,
    ];
    let mut x: u64 = 0x9E37_79B9_7F4A_7C15;
    for _ in 0..2000 {
        x ^= x << 13;
        x ^= x >> 7;
        x ^= x << 17;
        samples.push(x >> (x % 64));
        samples.push(x % 4_000_000);
    }
    for bytes in samples {
        assert_eq!(format_bytes(bytes), float_bytes(bytes), "bytes = {bytes}");
    }
}

#[test]
fn durations_are_zero_padded() {
    assert_eq!(format_duration(0), "00:00:00");
    assert_eq!(format_duration(301), "00:05:01");
    assert_eq!(format_duration(3600 * 123 + 59), "123:00:59");
}

#[test]
fn counters_count_and_deltas_subtract() {
    let mut stats = RuntimeStats::new_shared();
    let before = stats.snapshot();
    stats.record_successful_cycle();
    stats.record_mqtt_message_sent();
    stats.record_mqtt_message_sent();
    stats.record_recovery();
    stats.record_source_write(20);
    stats.record_source_read(38);
    stats.record_source_read(2);
    stats.record_source_timeout();
    stats.record_source_error();
    let after = stats.snapshot();
    let delta = after.delta_from(&before);
    assert_eq!(
        delta,
        StatsDelta {
            successful_cycles: 1,
            mqtt_messages_sent: 2,
            recoveries: 1,
            source_bytes_read: 40,
            source_bytes_written: 20,
            source_frames_read: 2,
            source_frames_written: 1,
            source_timeouts: 1,
            source_errors: 1,
        }
    );
    assert_eq!(before.source_bytes_read, 0);
}

#[test]
fn counters_tally_the_record_calls() {
    let mut stats = RuntimeStats::new_shared();
    for _ in 0..5 {
        stats.record_successful_cycle();
    }
    stats.record_source_write(10);
    stats.record_source_write(22);
    stats.record_source_read(7);
    let snapshot = stats.snapshot();
    assert_eq!(snapshot.successful_cycles, 5);
    assert_eq!(snapshot.source_bytes_written, 32);
    assert_eq!(snapshot.source_frames_written, 2);
    assert_eq!(snapshot.source_bytes_read, 7);
    assert_eq!(snapshot.source_frames_read, 1);
    assert_eq!(snapshot.mqtt_messages_sent, 0);
    assert_eq!(snapshot.recoveries, 0);
    assert_eq!(snapshot.source_timeouts, 0);
    assert_eq!(snapshot.source_errors, 0);
    let again = stats.snapshot();
    assert_eq!(again.successful_cycles, snapshot.successful_cycles);
    assert_eq!(again.source_bytes_written, snapshot.source_bytes_written);
}
