use symbolicator_core::config::{CacheConfigs, Config, InMemoryCacheConfig};
use symbolicator_core::http::{connection_allowed, ipv4_from_octets, is_external_ip, IpAddr};
use symbolicator_core::metrics::{
    record_task_metrics, to_maxing_i64_u128, to_maxing_i64_u64, TaskMetricKind, TaskMetrics,
};

fn config(connect_to_reserved_ips: bool) -> Config {
    Config {
        cache_dir: None,
        connect_to_reserved_ips,
        max_concurrent_requests: None,
        caches: CacheConfigs {
            in_memory: InMemoryCacheConfig {
                sentry_index_ttl: 0,
            },
        },
    }
}

fn v4(a: u8, b: u8, c: u8, d: u8) -> IpAddr {
    IpAddr::V4(ipv4_from_octets(a, b, c, d))
}

#[test]
fn reserved_blocks_are_internal() {
    let samples = [
        (0, 1, 2, 3),
        (10, 1, 2, 3),
        (100, 64, 0, 1),
        (100, 127, 255, 255),
        (127, 0, 0, 1),
        (169, 254, 1, 1),
        (172, 16, 0, 1),
        (172, 31, 255, 255),
        (192, 0, 0, 5),
        (192, 0, 2, 7),
        (192, 88, 99, 1),
        (192, 168, 1, 1),
        (198, 18, 5, 5),
        (198, 19, 255, 255),
        (198, 51, 100, 9),
        (224, 0, 0, 1),
        (240, 0, 0, 1),
        (255, 255, 255, 255),
    ];
    for (a, b, c, d) in samples {
        assert!(
            !is_external_ip(&v4(a, b, c, d)),
            "{}.{}.{}.{} should be reserved",
            a,
            b,
            c,
            d
        );
    }
}

#[test]
fn public_addresses_are_external() {
    let samples = [
        (1, 1, 1, 1),
        (8, 8, 8, 8),
        (100, 63, 255, 255),
        (100, 128, 0, 0),
        (126, 255, 255, 255),
        (128, 0, 0, 1),
        (172, 15, 255, 255),
        (172, 32, 0, 1),
        (192, 0, 0, 8),
        (192, 0, 3, 0),
        (192, 88, 100, 0),
        (192, 169, 0, 0),
        (198, 17, 255, 255),
        (198, 20, 0, 0),
        (198, 51, 101, 0),
        (223, 255, 255, 255),
    ];
    for (a, b, c, d) in samples {
        assert!(
            is_external_ip(&v4(a, b, c, d)),
            "{}.{}.{}.{} should be external",
            a,
            b,
            c,
            d
        );
    }
}

#[test]
fn ipv6_bypasses_the_filter() {
    // Which IPv6 addresses would be internal is unknown, so v6 hosts pass
    // the guard unfiltered.
    assert!(is_external_ip(&IpAddr::V6(1)));
    assert!(connection_allowed(&config(false), false, &IpAddr::V6(1)));
}

#[test]
fn untrusted_client_blocks_loopback() {
    assert!(!connection_allowed(&config(false), false, &v4(127, 0, 0, 1)));
}

#[test]
fn untrusted_client_allowed_with_reserved_ips() {
    assert!(connection_allowed(&config(true), false, &v4(127, 0, 0, 1)));
}

#[test]
fn trusted_client_is_never_filtered() {
    assert!(connection_allowed(&config(false), true, &v4(127, 0, 0, 1)));
    assert!(connection_allowed(&config(false), true, &v4(10, 0, 0, 1)));
}

#[test]
fn untrusted_client_reaches_public_addresses() {
    assert!(connection_allowed(&config(false), false, &v4(8, 8, 8, 8)));
}

#[test]
fn saturating_widening_passes_small_values() {
    assert_eq!(to_maxing_i64_u64(0), 0);
    assert_eq!(to_maxing_i64_u64(12345), 12345);
    assert_eq!(to_maxing_i64_u64(i64::MAX as u64), i64::MAX);
    assert_eq!(to_maxing_i64_u128(9_999_999), 9_999_999);
    assert_eq!(to_maxing_i64_u128(i64::MAX as u128), i64::MAX);
}

#[test]
fn saturating_widening_caps_large_values() {
    assert_eq!(to_maxing_i64_u64(i64::MAX as u64 + 1), i64::MAX);
    assert_eq!(to_maxing_i64_u64(u64::MAX), i64::MAX);
    assert_eq!(to_maxing_i64_u128(u128::MAX), i64::MAX);
    assert_eq!(to_maxing_i64_u128(i64::MAX as u128 + 1), i64::MAX);
}

#[test]
fn task_metrics_sample_order_and_values() {
    let metrics = TaskMetrics {
        instrumented_count: 1,
        dropped_count: 2,
        first_poll_count: 3,
        total_first_poll_delay_ms: 4,
        total_idled_count: 5,
        total_idle_duration_ms: 6,
        total_scheduled_count: 7,
        total_scheduled_duration_ms: 8,
        total_poll_count: 9,
        total_poll_duration_ms: 10,
        total_fast_poll_count: 11,
        total_fast_poll_duration_ms: u128::MAX,
        total_slow_poll_count: u64::MAX,
        total_slow_poll_duration_ms: 14,
    };
    let samples = record_task_metrics(&metrics);
    assert_eq!(samples.len(), 14);
    let expected = [
        (TaskMetricKind::InstrumentedCount, 1),
        (TaskMetricKind::DroppedCount, 2),
        (TaskMetricKind::FirstPollCount, 3),
        (TaskMetricKind::TotalFirstPollDelay, 4),
        (TaskMetricKind::TotalIdledCount, 5),
        (TaskMetricKind::TotalIdleDuration, 6),
        (TaskMetricKind::TotalScheduledCount, 7),
        (TaskMetricKind::TotalScheduledDuration, 8),
        (TaskMetricKind::TotalPollCount, 9),
        (TaskMetricKind::TotalPollDuration, 10),
        (TaskMetricKind::TotalFastPollCount, 11),
        (TaskMetricKind::TotalFastPollDuration, i64::MAX),
        (TaskMetricKind::TotalSlowPollCount, i64::MAX),
        (TaskMetricKind::TotalSlowPollDuration, 14),
    ];
    for (sample, (kind, value)) in samples.iter().zip(expected.iter()) {
        assert_eq!(sample.kind, *kind);
        assert_eq!(sample.value, *value);
    }
}

#[test]
fn task_metric_wire_names() {
    assert_eq!(
        TaskMetricKind::InstrumentedCount.metric_name(),
        "tasks.instrumented_count"
    );
    assert_eq!(
        TaskMetricKind::TotalFirstPollDelay.metric_name(),
        "tasks.total_first_poll_delay"
    );
    // The fast-poll duration counter's established wire name ends in a
    // stray plural.
    assert_eq!(
        TaskMetricKind::TotalFastPollDuration.metric_name(),
        "tasks.total_fast_poll_durations"
    );
    assert_eq!(
        TaskMetricKind::TotalSlowPollDuration.metric_name(),
        "tasks.total_slow_poll_duration"
    );
}
