use cpu_btc_core::stats::{AtomicStats, AtomicStatsManager, BatchStatsUpdater};

#[test]
fn test_atomic_stats_manager() {
    let mut manager = AtomicStatsManager::new(100);

    manager.register_device(1);
    manager.register_device(2);

    assert!(manager.record_device_hashes(1, 1000));
    assert!(manager.record_device_hashes(2, 2000));

    let global_stats = manager.aggregate_stats();
    assert_eq!(global_stats.total_hashes, 3000);
}

#[test]
fn test_manager_registration_and_reset() {
    let mut manager = AtomicStatsManager::new(100);
    manager.register_device(5);
    manager.register_device(6);
    assert!(manager.get_device_stats(5).is_some());
    assert!(manager.get_device_stats(7).is_none());
    assert_eq!(manager.get_manager_stats().device_count, 2);

    assert!(manager.record_device_hashes(5, 123));
    assert!(!manager.record_device_hashes(9, 1));

    manager.reset_all_stats();
    let agg = manager.aggregate_stats();
    assert_eq!(agg.total_hashes, 0);
    assert_eq!(agg.accepted_work, 0);
}

#[test]
fn test_record_hashes_sums_exactly() {
    // Many small updates are summed without loss.
    let mut stats = AtomicStats::new(0);
    for _ in 0..1000 {
        stats.record_hashes(7);
    }
    let (total, _start, _last) = stats.get_raw_stats();
    assert_eq!(total, 7000);
}

#[test]
fn test_counter_increments_and_reset() {
    let mut stats = AtomicStats::new(3);
    stats.increment_accepted();
    stats.increment_accepted();
    stats.increment_rejected();
    stats.increment_hardware_errors();
    stats.update_temperature(4525);
    stats.update_power_consumption(9500);
    assert_eq!(stats.accepted_work, 2);
    assert_eq!(stats.rejected_work, 1);
    assert_eq!(stats.hardware_errors, 1);

    let snapshot = stats.to_device_stats_with_hashrate(1000, 900);
    assert_eq!(snapshot.device_id, 3);
    assert_eq!(snapshot.accepted_work, 2);
    assert_eq!(snapshot.current_hashrate, 1000);
    assert_eq!(snapshot.average_hashrate, 900);
    assert_eq!(snapshot.temperature_centi, Some(4525));
    assert_eq!(snapshot.power_centi, Some(9500));

    stats.reset();
    assert_eq!(stats.total_hashes, 0);
    assert_eq!(stats.accepted_work, 0);
    assert_eq!(stats.temperature_centi, 0);
    let fresh = stats.to_device_stats_with_hashrate(0, 0);
    assert_eq!(fresh.temperature_centi, None);
}

#[test]
fn test_batch_updater_conserves_counts() {
    // Whatever sits in the scratch counters plus the committed cell always
    // adds up to everything recorded; a forced flush commits all of it.
    let mut stats = AtomicStats::new(1);
    let mut updater = BatchStatsUpdater::new(1000);

    updater.add_hashes(&mut stats, 500);
    updater.add_accepted(&mut stats, 2);
    updater.add_rejected(&mut stats, 1);
    updater.add_errors(&mut stats, 3);

    assert_eq!(stats.total_hashes + updater.local_hashes, 500);
    assert_eq!(stats.accepted_work + updater.local_accepted, 2);
    assert_eq!(stats.rejected_work + updater.local_rejected, 1);
    assert_eq!(stats.hardware_errors + updater.local_errors, 3);

    updater.force_flush(&mut stats);
    assert_eq!(stats.total_hashes, 500);
    assert_eq!(stats.accepted_work, 2);
    assert_eq!(stats.rejected_work, 1);
    assert_eq!(stats.hardware_errors, 3);
    assert_eq!(updater.local_hashes, 0);
    assert_eq!(updater.local_accepted, 0);
}
