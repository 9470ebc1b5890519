use cpu_btc_core::factory::SoftwareCoreFactory;
use cpu_btc_core::get_core_info;
use cpu_btc_core::mining_core::SoftwareMiningCore;
use cpu_btc_core::optimized::{
    detect_capabilities, CpuManager, LoadBalancer, OptimizedCpuCoreFactory, SimdAlgorithmEngine,
    SimdSupport, WorkDistributionStrategy,
};
use cpu_btc_core::performance::{PerformanceConfig, PerformanceOptimizer};
use cpu_btc_core::types::{CoreConfig, CoreType, DeviceConfig};
use cpu_btc_core::work::Work;

fn easy_work(id: &str) -> Work {
    let mut target = vec![0u8; 32];
    target[0] = 0xFF;
    Work::new(id.to_string(), target, vec![0u8; 80], 1)
}

#[test]
fn test_factory_validation_rules() {
    let factory = SoftwareCoreFactory::new();
    let good = factory.default_config();
    assert!(factory.validate_config(&good).is_ok());

    let mut no_name = factory.default_config();
    no_name.name = String::new();
    assert!(factory.validate_config(&no_name).is_err());

    let mut zero_count = factory.default_config();
    zero_count.device_count = Some(0);
    assert!(factory.validate_config(&zero_count).is_err());

    let mut too_many = factory.default_config();
    too_many.device_count = Some(101);
    assert!(factory.validate_config(&too_many).is_err());

    let mut inverted = factory.default_config();
    inverted.min_hashrate = Some(5_000_000_000);
    inverted.max_hashrate = Some(1_000_000_000);
    assert!(factory.validate_config(&inverted).is_err());

    let mut bad_rate = factory.default_config();
    bad_rate.error_rate_ppm = Some(1_000_001);
    assert!(factory.validate_config(&bad_rate).is_err());

    let mut bad_device = factory.default_config();
    bad_device.devices[0].frequency = 0;
    assert!(factory.validate_config(&bad_device).is_err());
}

#[test]
fn test_core_initialize_and_submit() {
    let factory = SoftwareCoreFactory::new();
    let mut config = factory.default_config();
    config.device_count = Some(2);
    config.error_rate_ppm = Some(0);
    config.batch_size = Some(500);

    let mut core = factory.create_core(config).expect("core must build");
    let n = core.device_count().unwrap();
    assert!(n >= 1 && n <= 2);

    core.start().expect("core must start");
    assert!(core.start().is_err());

    core.submit_work(easy_work("shared_job")).expect("submit");
    for device in core.devices.iter() {
        let stats = device.work_queue.get_stats();
        assert_eq!(stats.total_enqueued, 1);
        assert_eq!(stats.pending_count, 1);
    }

    // Drive each worker one step; every one adopts the job and mines.
    let count = core.devices.len();
    for i in 0..count {
        match core.devices[i].continuous_mining_step() {
            cpu_btc_core::device::MiningStepOutcome::Mined(h) => assert_eq!(h, 100_000),
            _ => panic!("a running worker with work must mine"),
        }
    }

    let collected = core.collect_results().unwrap();
    assert!(collected.len() >= count);
    for res in collected.iter() {
        assert_eq!(res.work_id, "shared_job");
        assert!(res.meets_target);
    }
    // A second collection finds nothing new.
    assert!(core.collect_results().unwrap().is_empty());

    let stats = core.get_stats().unwrap();
    assert_eq!(stats.device_count as usize, count);
    assert!(stats.accepted_work >= count as u64);

    assert!(core.health_check().unwrap());

    core.stop().expect("stop");
    core.shutdown().expect("shutdown");
    assert_eq!(core.device_count().unwrap(), 0);
}

#[test]
fn test_core_rejects_invalid_configuration() {
    let mut core = SoftwareMiningCore::new("core".to_string());
    let mut config = CoreConfig::default();
    config.name = "core".to_string();
    config.device_count = Some(0);
    assert!(core.initialize(config).is_err());
}

#[test]
fn test_performance_optimizer_rules() {
    let mut optimizer = PerformanceOptimizer::new(PerformanceConfig::default());
    optimizer.optimize_for_counts(8, 4);
    assert_eq!(optimizer.get_config().batch_size, 2000);
    assert!(optimizer.get_config().cpu_affinity.enabled);

    let mut small = PerformanceOptimizer::new(PerformanceConfig::default());
    small.optimize_for_counts(2, 2);
    assert_eq!(small.get_config().batch_size, 1000);

    let mut mid = PerformanceOptimizer::new(PerformanceConfig::default());
    mid.optimize_for_counts(4, 2);
    assert_eq!(mid.get_config().batch_size, 1500);

    let mut config = DeviceConfig::default();
    let tuned = PerformanceOptimizer::new(PerformanceConfig::default());
    tuned.apply_to_device_config(&mut config, 5);
    assert_eq!(config.frequency, 600 + (5 % 4) * 25);
    assert_eq!(config.voltage, 900 + (5 % 3) * 10);
}

#[test]
fn test_optimized_factory_and_capabilities() {
    let factory = OptimizedCpuCoreFactory::new();
    assert!(matches!(factory.core_type(), CoreType::Custom(t) if t == "optimized_cpu"));

    let good = factory.default_config();
    assert!(factory.validate_config(&good).is_ok());

    let mut big_batch = factory.default_config();
    big_batch.batch_size = Some(100_001);
    assert!(factory.validate_config(&big_batch).is_err());

    let mut many = factory.default_config();
    many.device_count = Some(257);
    assert!(factory.validate_config(&many).is_err());

    let manager = CpuManager::new(SimdSupport::Avx2);
    let caps = detect_capabilities(&manager);
    assert!(caps.supports_auto_tuning);
    assert_eq!(caps.max_devices, Some(64));
    assert!(caps.temperature_capabilities.supports_monitoring);
    assert!(!caps.frequency_capabilities.supports_control);

    let scalar = CpuManager::new(SimdSupport::Scalar);
    let scalar_caps = detect_capabilities(&scalar);
    assert!(!scalar_caps.supports_auto_tuning);
    assert_eq!(scalar_caps.max_devices, Some(16));

    let engine = SimdAlgorithmEngine::new(&SimdSupport::Avx);
    assert_eq!(engine.simd_level, SimdSupport::Avx);

    let mut balancer = LoadBalancer::new();
    assert!(matches!(
        balancer.distribution_strategy,
        WorkDistributionStrategy::Adaptive
    ));
    assert!(balancer.rebalance().is_ok());
}

#[test]
fn test_core_info_names() {
    let info = get_core_info();
    assert!(!info.name.is_empty());
    assert!(matches!(info.core_type, CoreType::Custom(t) if t == "optimized_cpu"));
    let factory = cpu_btc_core::create_factory();
    assert!(matches!(factory.core_type(), CoreType::Custom(t) if t == "software"));
}

#[test]
fn test_optimized_core_lifecycle() {
    let mut core = cpu_btc_core::optimized::OptimizedCpuMiningCore::new(
        "wide".to_string(),
        SimdSupport::Sse2,
    );
    assert!(!core.health_check().unwrap());

    let mut config = core.default_config();
    config.device_count = Some(2);
    config.error_rate_ppm = Some(0);
    core.initialize(config).expect("initialize");
    assert_eq!(core.device_count().unwrap(), 2);
    assert_eq!(core.devices[0].device_info.id, 4000);

    core.start().expect("start");
    assert!(core.health_check().unwrap());

    core.submit_work(easy_work("wide_job")).expect("submit");
    for device in core.devices.iter_mut() {
        device.set_result_sender();
        let _ = device.continuous_mining_step();
    }
    let collected = core.collect_results().unwrap();
    assert!(collected.len() >= 1);

    core.shutdown().expect("shutdown");
    assert_eq!(core.device_count().unwrap(), 0);
}

#[test]
fn test_scan_and_create_device() {
    let factory = SoftwareCoreFactory::new();
    let mut config = factory.default_config();
    config.device_count = Some(1);
    let core = factory.create_core(config).expect("core must build");

    let scanned = core.scan_devices().unwrap();
    assert_eq!(scanned.len(), 1);
    assert_eq!(scanned[0].id, 1000);

    let info = cpu_btc_core::types::DeviceInfo::new(
        1042,
        "extra worker".to_string(),
        "software".to_string(),
        0,
    );
    let device = core.create_device(info).unwrap();
    assert_eq!(device.device_info.id, 1042);

    assert!(core.get_devices().is_err());

    let empty_core = SoftwareMiningCore::new("bare".to_string());
    let generated = empty_core.scan_devices().unwrap();
    assert!(generated.len() >= 1);
}
