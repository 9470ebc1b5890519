use std::sync::Arc;

use cpu_btc_core::device::{evaluate_candidate, MiningStepOutcome, SoftwareDevice};
use cpu_btc_core::types::{DeviceConfig, DeviceInfo, DeviceStatus};
use cpu_btc_core::work::{double_sha256, meets_target, Work};

fn easy_target() -> Vec<u8> {
    // The first byte is 0xFF: almost every digest stays at or below it.
    let mut target = vec![0u8; 32];
    target[0] = 0xFF;
    target
}

fn test_device(error_rate_ppm: u32, batch_size: u32) -> SoftwareDevice {
    let info = DeviceInfo::new(1, "Test Device".to_string(), "CPU".to_string(), 1);
    SoftwareDevice::new(info, DeviceConfig::default(), 0, error_rate_ppm, batch_size)
        .expect("Failed to create device")
}

#[test]
fn test_double_sha256_known_vector() {
    // The double digest of the empty input is a fixed, well-known value; a
    // digest routine that handed its input back would fail this.
    let digest = double_sha256(&Vec::new());
    let expected: [u8; 32] = [
        0x5d, 0xf6, 0xe0, 0xe2, 0x76, 0x13, 0x59, 0xd3, 0x0a, 0x82, 0x75, 0x05, 0x8e, 0x29, 0x9f,
        0xcc, 0x03, 0x81, 0x53, 0x45, 0x45, 0xf5, 0x5c, 0xf4, 0x3e, 0x41, 0x98, 0x3f, 0x5d, 0x4c,
        0x94, 0x56,
    ];
    assert_eq!(digest, expected.to_vec());
}

#[test]
fn test_meets_target_comparisons() {
    let low = vec![0u8; 32];
    let mut high = vec![0u8; 32];
    high[0] = 1;
    assert!(meets_target(&low, &high));
    assert!(!meets_target(&high, &low));
    assert!(meets_target(&high, &high));
}

#[test]
fn test_evaluate_candidate_respects_error_rate() {
    let work = Work::new("job".to_string(), easy_target(), vec![0u8; 80], 1);
    // A draw below the injection rate discards the candidate.
    let discarded = evaluate_candidate(&work, 1, 42, 0, 500_000);
    // With rate zero every satisfying digest is kept (the target accepts
    // almost everything; try a few candidates).
    let mut kept = false;
    for nonce in 0..8u32 {
        if let Some(res) = evaluate_candidate(&work, 1, nonce, 0, 0) {
            assert_eq!(res.work_id, "job");
            assert_eq!(res.device_id, 1);
            assert_eq!(res.nonce, nonce);
            assert!(res.meets_target);
            assert_eq!(res.hash.len(), 32);
            kept = true;
            break;
        }
    }
    assert!(kept);
    if let Some(res) = discarded {
        // The only way the first call returns a result is a satisfying
        // digest with a draw at or above the rate; draw zero forbids that.
        panic!("candidate must be discarded under the error rate: {:?}", res.nonce);
    }
}

#[test]
fn test_worker_reports_result_within_one_batch() {
    // A worker with error rate zero and a trivially satisfiable target must
    // report at least one accepted result within one batch.
    let mut device = test_device(0, 1000);
    device
        .initialize(DeviceConfig::default())
        .expect("Failed to initialize device");
    device.start().expect("Failed to start device");

    let work = Arc::new(Work::new(
        "easy_job".to_string(),
        easy_target(),
        vec![0u8; 80],
        1,
    ));
    device.submit_work(work).expect("Failed to submit work");

    let result = device.get_result().expect("Failed to mine");
    assert!(result.is_some());
    let res = result.unwrap();
    assert_eq!(res.work_id, "easy_job");
    assert!(res.meets_target);
    assert!(device.atomic_stats.accepted_work >= 1);
    assert!(device.atomic_stats.total_hashes >= 1);
}

#[test]
fn test_stop_halts_counters_and_reset_zeroes() {
    // A stopped worker's step must not advance its hash counter, and a
    // subsequent reset zeroes every counter.
    let mut device = test_device(0, 1000);
    device
        .initialize(DeviceConfig::default())
        .expect("Failed to initialize device");
    device.set_result_sender();
    device.start().expect("Failed to start device");

    let work = Arc::new(Work::new(
        "steady_job".to_string(),
        easy_target(),
        vec![0u8; 80],
        1,
    ));
    device.submit_work(work).expect("Failed to submit work");

    match device.continuous_mining_step() {
        MiningStepOutcome::Mined(h) => assert_eq!(h, 100_000),
        _ => panic!("a running worker with work must mine"),
    }
    assert_eq!(device.atomic_stats.total_hashes, 100_000);
    assert!(device.outbox.len() >= 1);

    device.stop().expect("Failed to stop device");
    let before = device.atomic_stats.total_hashes;
    match device.continuous_mining_step() {
        MiningStepOutcome::Stopped => {}
        _ => panic!("a stopped worker must not mine"),
    }
    assert_eq!(device.atomic_stats.total_hashes, before);

    device.reset().expect("Failed to reset device");
    assert_eq!(device.atomic_stats.total_hashes, 0);
    assert_eq!(device.atomic_stats.accepted_work, 0);
    assert_eq!(device.atomic_stats.rejected_work, 0);
    assert_eq!(device.atomic_stats.hardware_errors, 0);
}

#[test]
fn test_worker_adopts_new_job_and_restarts_counter() {
    let mut device = test_device(0, 100);
    device.initialize(DeviceConfig::default()).unwrap();
    device.set_result_sender();
    device.start().unwrap();

    let first = Arc::new(Work::new("first".to_string(), easy_target(), vec![0u8; 80], 1));
    device.submit_work(first).unwrap();
    match device.continuous_mining_step() {
        MiningStepOutcome::Mined(_) => {}
        _ => panic!("expected mining"),
    }
    let nonce_after_first = device.nonce_iterator;
    assert_eq!(nonce_after_first, 100_000);

    let second = Arc::new(Work::new("second".to_string(), easy_target(), vec![1u8; 80], 1));
    device.submit_work(second).unwrap();
    match device.continuous_mining_step() {
        MiningStepOutcome::Mined(_) => {}
        _ => panic!("expected mining"),
    }
    // The candidate counter restarted for the new job and advanced one batch.
    assert_eq!(device.nonce_iterator, 100_000);
    assert_eq!(device.current_work.as_ref().unwrap().id, "second");
}

#[test]
fn test_worker_without_work_backs_off() {
    let mut device = test_device(0, 100);
    device.initialize(DeviceConfig::default()).unwrap();
    device.start().unwrap();
    match device.continuous_mining_step() {
        MiningStepOutcome::NoWork => {}
        _ => panic!("a worker without work must say so"),
    }
    assert_eq!(device.atomic_stats.total_hashes, 0);
}

#[test]
fn test_device_lifecycle_and_settings() {
    let mut device = test_device(10_000, 1000);
    assert!(matches!(
        device.get_status().unwrap(),
        DeviceStatus::Uninitialized
    ));
    device.initialize(DeviceConfig::default()).unwrap();
    assert!(matches!(device.get_status().unwrap(), DeviceStatus::Idle));
    device.start().unwrap();
    assert!(matches!(device.get_status().unwrap(), DeviceStatus::Running));

    assert!(device.set_frequency(700).is_err());
    assert!(device.set_voltage(950).is_err());
    device.set_fan_speed(80).unwrap();
    assert_eq!(device.config.fan_speed, Some(80));
    assert_eq!(device.device_info.fan_speed, Some(80));

    device.update_temperature_reading(4500).unwrap();
    assert_eq!(device.device_info.temperature_centi, Some(4500));
    assert!(device.health_check().unwrap());

    device.update_temperature_reading(9500).unwrap();
    assert!(!device.health_check().unwrap());

    device.stop().unwrap();
    assert!(matches!(device.get_status().unwrap(), DeviceStatus::Idle));
    device.restart().unwrap();
    assert!(matches!(device.get_status().unwrap(), DeviceStatus::Running));
}

#[test]
fn test_device_temperature_integration() {
    let device_info = DeviceInfo::new(1, "Test Device".to_string(), "CPU".to_string(), 1);

    let device_config = DeviceConfig {
        frequency: 600,
        voltage: 900,
        fan_speed: Some(50),
        ..Default::default()
    };

    let mut device = SoftwareDevice::new(
        device_info,
        device_config.clone(),
        1000000,
        10_000,
        1000,
    )
    .expect("Failed to create device");

    device
        .initialize(device_config)
        .expect("Failed to initialize device");

    let stats = device.get_stats().expect("Failed to get stats");

    if let Some(temp) = stats.temperature_centi {
        println!("设备温度: {:.1}°C", temp as f64 / 100.0);
    } else {
        println!("设备不支持温度监控");
    }

    let health = device.health_check().expect("Failed to check health");
    println!("设备健康状态: {}", if health { "正常" } else { "异常" });
}

#[test]
fn test_pull_returns_nothing_while_channel_wired() {
    // With a report channel wired, the found result goes to the collector's
    // buffer and pull retrieval stays empty: no result is delivered twice.
    let mut device = test_device(0, 1000);
    device.initialize(DeviceConfig::default()).unwrap();
    device.set_result_sender();
    device.start().unwrap();

    let work = Arc::new(Work::new(
        "push_job".to_string(),
        easy_target(),
        vec![0u8; 80],
        1,
    ));
    device.submit_work(work).unwrap();

    let pulled = device.get_result().expect("mining must not fail");
    assert!(pulled.is_none());
    assert_eq!(device.outbox.len(), 1);
    assert_eq!(device.outbox[0].work_id, "push_job");
    assert!(device.atomic_stats.accepted_work >= 1);
}

#[test]
fn test_initialize_caches_temperature_probe() {
    let mut device = test_device(0, 100);
    assert!(!device.temperature_capability_checked);
    device.initialize(DeviceConfig::default()).unwrap();
    assert!(device.temperature_capability_checked);
    let manager_says = device
        .temperature_manager
        .as_ref()
        .map(|m| m.has_temperature_monitoring())
        .unwrap_or(false);
    assert_eq!(device.temperature_capability_supported, manager_says);
}

#[test]
fn test_reset_clears_temperature_and_power() {
    let mut device = test_device(0, 100);
    device.initialize(DeviceConfig::default()).unwrap();
    device.update_temperature_reading(5500).unwrap();
    device.atomic_stats.update_power_consumption(9000);
    device.reset().unwrap();
    assert_eq!(device.atomic_stats.temperature_centi, 0);
    assert_eq!(device.atomic_stats.power_centi, 0);
}
