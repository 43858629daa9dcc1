use helmor::percentiles::compute_latency_percentiles;
use std::time::Duration;

/// Runs the percentile computation on durations, counted in nanoseconds.
fn percentiles_of(samples: &mut Vec<Duration>) -> (Duration, Duration, Duration) {
    let mut nanos: Vec<u128> = samples.iter().map(|d| d.as_nanos()).collect();
    let (a, b, c) = compute_latency_percentiles(&mut nanos);
    *samples = nanos.iter().map(|n| from_nanos(*n)).collect();
    (from_nanos(a), from_nanos(b), from_nanos(c))
}

fn from_nanos(n: u128) -> Duration {
    Duration::new((n / 1_000_000_000) as u64, (n % 1_000_000_000) as u32)
}

#[test]
fn empty_samples_return_zero_durations() {
    let mut s: Vec<Duration> = vec![];
    let (p50, p95, p99) = percentiles_of(&mut s);
    assert_eq!(p50, Duration::ZERO);
    assert_eq!(p95, Duration::ZERO);
    assert_eq!(p99, Duration::ZERO);
}

#[test]
fn single_sample_collapses_all_percentiles() {
    let mut s = vec![Duration::from_millis(7)];
    let (p50, p95, p99) = percentiles_of(&mut s);
    assert_eq!(p50, Duration::from_millis(7));
    assert_eq!(p95, Duration::from_millis(7));
    assert_eq!(p99, Duration::from_millis(7));
}

#[test]
fn percentiles_track_nearest_rank() {
    // 100 samples = 1ms .. 100ms — nearest-rank on a sorted
    // array gives exactly the percentile-numbered sample.
    let mut s: Vec<Duration> = (1..=100).map(Duration::from_millis).collect();
    let (p50, p95, p99) = percentiles_of(&mut s);
    assert_eq!(p50, Duration::from_millis(50));
    assert_eq!(p95, Duration::from_millis(95));
    assert_eq!(p99, Duration::from_millis(99));
}

#[test]
fn percentiles_sort_unsorted_input() {
    let mut s = vec![
        Duration::from_millis(99),
        Duration::from_millis(1),
        Duration::from_millis(50),
        Duration::from_millis(20),
        Duration::from_millis(95),
    ];
    let (p50, _p95, p99) = percentiles_of(&mut s);
    assert_eq!(p50, Duration::from_millis(50));
    assert_eq!(p99, Duration::from_millis(99));
}

#[test]
fn samples_are_left_sorted() {
    let mut s: Vec<u128> = vec![5, 3, 9, 3, 1];
    let (p50, p95, p99) = compute_latency_percentiles(&mut s);
    assert_eq!(s, vec![1, 3, 3, 5, 9]);
    assert_eq!((p50, p95, p99), (3, 9, 9));
}

#[test]
fn percentiles_are_ordered_and_ranked() {
    // Twenty samples: p50 is the 10th, p95 the 19th, p99 the 20th.
    let mut s: Vec<u128> = (1..=20).rev().collect();
    let (p50, p95, p99) = compute_latency_percentiles(&mut s);
    assert_eq!((p50, p95, p99), (10, 19, 20));
    assert!(p50 <= p95 && p95 <= p99);
}
