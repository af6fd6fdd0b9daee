use uintr::benchmark::{LatencyStats, MAX_DURATION_NANOS, UNSET_MINIMUM_NANOS};

#[test]
fn new_record_is_empty() {
    let s = LatencyStats::new();
    assert_eq!(s.count, 0);
    assert_eq!(s.sum, 0);
    assert_eq!(s.maximum, 0);
    assert_eq!(s.minimum, UNSET_MINIMUM_NANOS);
    assert_eq!(UNSET_MINIMUM_NANOS, u64::MAX as u128 * 1_000_000_000);
    assert_eq!(
        MAX_DURATION_NANOS,
        std::time::Duration::new(u64::MAX, 999_999_999).as_nanos()
    );
    assert!(s.latencies.is_empty());
}

#[test]
fn update_tracks_min_max_sum_count() {
    let mut s = LatencyStats::new();
    for n in [500u128, 200, 900, 300] {
        s.update(n);
    }
    assert_eq!(s.count, 4);
    assert_eq!(s.sum, 1900);
    assert_eq!(s.minimum, 200);
    assert_eq!(s.maximum, 900);
    assert_eq!(s.latencies, vec![500, 200, 900, 300]);
}

#[test]
fn update_keeps_low_bits_in_the_list() {
    let mut s = LatencyStats::new();
    let big = (1u128 << 64) + 7;
    s.update(big);
    assert_eq!(s.latencies, vec![7]);
    assert_eq!(s.maximum, big);
    assert_eq!(s.minimum, big);
}

#[test]
fn percentiles_of_ten() {
    let mut s = LatencyStats::new();
    for n in [10u128, 90, 20, 80, 30, 70, 40, 60, 50, 100] {
        s.update(n);
    }
    assert_eq!(s.percentile(50), 60);
    assert_eq!(s.percentile(90), 100);
    assert_eq!(s.percentile(99), 100);
    assert_eq!(s.percentile(0), 10);
    assert_eq!(s.percentile(10), 20);
    assert_eq!(s.percentile(250), 100);
    // The record itself is not reordered.
    assert_eq!(s.latencies[0], 10);
    assert_eq!(s.latencies[1], 90);
}

#[test]
fn percentile_of_nothing_is_zero() {
    let s = LatencyStats::new();
    assert_eq!(s.percentile(50), 0);
}

#[test]
fn percentiles_grow_with_p_and_are_recorded() {
    let mut s = LatencyStats::new();
    for n in [5u128, 3, 3, 9, 1, 7, 7, 2] {
        s.update(n);
    }
    let mut last = 0;
    for p in 0..=100 {
        let v = s.percentile(p);
        assert!(v >= last);
        assert!(s.latencies.contains(&v));
        last = v;
    }
}

#[test]
fn summary_of_a_run() {
    let mut s = LatencyStats::new();
    for n in [1_000u128, 2_000, 4_000] {
        s.update(n);
    }
    let r = s.summary(100, 400);
    assert_eq!(r.message_count, 3);
    assert_eq!(r.average_nanos, 2_333);
    assert_eq!(r.minimum_nanos, 1_000);
    assert_eq!(r.maximum_nanos, 4_000);
    assert_eq!(r.p50, 2_000);
    assert_eq!(r.p90, 4_000);
    assert_eq!(r.p99, 4_000);
    assert_eq!(r.cpu_time_used, 300);
    // A clock that went backwards gives no CPU time.
    assert_eq!(s.summary(400, 100).cpu_time_used, 0);
}

#[test]
fn summary_mean_matches_duration_division() {
    let mut s = LatencyStats::new();
    let parts = [1_999_999_999u128, 1_000_000_001, 7];
    let mut total = std::time::Duration::ZERO;
    for n in parts {
        s.update(n);
        total += std::time::Duration::from_nanos(n as u64);
    }
    assert_eq!(s.summary(0, 0).average_nanos, (total / 3).as_nanos());
}
