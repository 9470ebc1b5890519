use cpu_btc_core::hashrate::HashrateTracker;

const SECOND: u64 = 1_000_000_000;

fn synthetic_tracker() -> HashrateTracker {
    let mut tracker = HashrateTracker::new();
    tracker.start_time_nanos = 0;
    tracker.last_update_nanos = 0;
    tracker
}

#[test]
fn test_constant_rate_converges_immediately() {
    // Under a constant synthetic rate the averages are seeded with the true
    // rate at the first tick and stay exactly there.
    let mut tracker = synthetic_tracker();

    tracker.add_hashes(1_000_000);
    tracker.update_averages_at(SECOND);
    assert_eq!(tracker.avg_5s, 1_000_000);
    assert_eq!(tracker.avg_15m, 1_000_000);

    tracker.add_hashes(1_000_000);
    tracker.update_averages_at(2 * SECOND);
    assert_eq!(tracker.avg_5s, 1_000_000);
    assert_eq!(tracker.avg_15m, 1_000_000);

    tracker.add_hashes(1_000_000);
    tracker.update_averages_at(3 * SECOND);
    assert_eq!(tracker.avg_5s, 1_000_000);
}

#[test]
fn test_long_window_reacts_more_slowly() {
    // After a step change the short-window average sits closer to the new
    // rate than the long-window one.
    let mut tracker = synthetic_tracker();
    tracker.add_hashes(1_000_000);
    tracker.update_averages_at(SECOND);

    // The rate jumps: nine million more hashes within the next second.
    tracker.add_hashes(9_000_000);
    tracker.update_averages_at(2 * SECOND);

    let current = 5_000_000u64; // ten million hashes over two seconds
    let short_gap = current.abs_diff(tracker.avg_5s);
    let long_gap = current.abs_diff(tracker.avg_15m);
    assert!(short_gap < long_gap);
    assert!(tracker.avg_5s > 1_000_000);
    assert!(tracker.avg_5s <= current);
}

#[test]
fn test_too_frequent_ticks_are_ignored() {
    let mut tracker = synthetic_tracker();
    tracker.add_hashes(1_000_000);
    tracker.update_averages_at(SECOND);
    let before = tracker.avg_5s;

    // Fifty milliseconds later: below the minimum granularity, a no-op.
    tracker.add_hashes(1_000_000);
    tracker.update_averages_at(SECOND + 50_000_000);
    assert_eq!(tracker.avg_5s, before);
    assert_eq!(tracker.last_update_nanos, SECOND);
}

#[test]
fn test_share_counters() {
    let mut tracker = HashrateTracker::new();
    tracker.increment_accepted();
    tracker.increment_accepted();
    tracker.increment_rejected();
    tracker.increment_hardware_error();
    assert_eq!(tracker.accepted_shares, 2);
    assert_eq!(tracker.rejected_shares, 1);
    assert_eq!(tracker.hardware_errors, 1);
}

#[test]
fn test_get_cgminer_hashrate_string() {
    let mut tracker = synthetic_tracker();
    tracker.avg_5s = 2_500_000;
    tracker.avg_1m = 1_000_000;
    tracker.avg_5m = 12_340_000;
    tracker.avg_15m = 0;
    tracker.accepted_shares = 12;
    tracker.rejected_shares = 3;
    tracker.hardware_errors = 0;

    // With no time elapsed the overall average reads zero.
    let line = tracker.hashrate_string_at(0);
    assert_eq!(
        line,
        "(5s):2.50M (1m):1.00M (5m):12.34M (15m):0.00M (avg):0.00Mh/s A:12 R:3 HW:0"
    );

    let live = tracker.get_cgminer_hashrate_string();
    assert!(live.starts_with("(5s):2.50M"));
}
