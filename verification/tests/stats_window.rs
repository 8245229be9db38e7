//! The rolling CPU window: bound, eviction order, average, and trend gating.

use syspulse::stats::Stats;

#[test]
fn window_holds_all_samples_below_capacity() {
    let mut s = Stats::new(60);
    s.update(1000);
    s.update(2000);
    let h: Vec<u32> = s.cpu_history().iter().copied().collect();
    assert_eq!(h, vec![1000, 2000]);
}

#[test]
fn window_evicts_oldest_at_capacity() {
    let mut s = Stats::new(3);
    for v in [10, 20, 30, 40, 50] {
        s.update(v);
    }
    let h: Vec<u32> = s.cpu_history().iter().copied().collect();
    assert_eq!(h, vec![30, 40, 50]);
}

#[test]
fn window_length_is_min_of_updates_and_capacity() {
    let mut s = Stats::new(4);
    for n in 1..=10u32 {
        s.update(n);
        assert_eq!(s.cpu_history().len(), (n as usize).min(4));
    }
}

#[test]
fn zero_capacity_window_stays_empty() {
    let mut s = Stats::new(0);
    s.update(5000);
    assert_eq!(s.cpu_history().len(), 0);
    assert_eq!(s.average_cpu(), None);
}

#[test]
fn average_of_empty_window_is_none() {
    let s = Stats::new(5);
    assert_eq!(s.average_cpu(), None);
}

#[test]
fn average_is_sum_over_count() {
    let mut s = Stats::new(10);
    s.update(1000);
    s.update(2000);
    assert_eq!(s.average_cpu(), Some(1500));
    s.update(1001);
    // 4001 / 3, truncated
    assert_eq!(s.average_cpu(), Some(1333));
}

#[test]
fn average_sees_only_retained_samples() {
    let mut s = Stats::new(2);
    s.update(100);
    s.update(3000);
    s.update(5000);
    assert_eq!(s.average_cpu(), Some(4000));
}

#[test]
fn trend_needs_strictly_more_than_ten_samples() {
    let mut s = Stats::new(60);
    for _ in 0..10 {
        s.update(7000);
    }
    assert_eq!(s.cpu_trend(), None);
    s.update(9500);
    // mean of last five minus the oldest: (9500 + 4 * 7000) / 5 - 7000
    assert_eq!(s.cpu_trend(), Some(500));
}

#[test]
fn trend_uses_oldest_retained_sample_after_eviction() {
    let mut s = Stats::new(11);
    s.update(100);
    for _ in 0..10 {
        s.update(7000);
    }
    s.update(9500);
    // the 100 sample has been evicted; the oldest retained is 7000
    assert_eq!(s.cpu_trend(), Some(500));
}

#[test]
fn trend_can_be_negative() {
    let mut s = Stats::new(60);
    for _ in 0..10 {
        s.update(9000);
    }
    s.update(1000);
    // (1000 + 4 * 9000) / 5 - 9000 = 7400 - 9000
    assert_eq!(s.cpu_trend(), Some(-1600));
}
