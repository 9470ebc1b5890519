use cpu_btc_core::affinity::{CpuAffinityConfig, CpuAffinityManager, CpuAffinityStrategy};
use cpu_btc_core::platform::{
    get_platform_info, get_platform_temperature_capabilities, get_platform_yield_frequency,
    supports_high_performance,
};
use cpu_btc_core::temperature::{
    parse_thermal_reading, TemperatureConfig, TemperatureManager, TemperatureStatus,
};

#[test]
fn test_platform_capabilities() {
    let capabilities = get_platform_temperature_capabilities();
    println!("平台温度监控能力: {}", capabilities.summary());

    assert!(!capabilities.platform_name.is_empty());
    assert!(!capabilities.arch.is_empty());
    assert!(!capabilities.provider_type.is_empty());
}

#[test]
fn test_temperature_manager_creation() {
    let config = TemperatureConfig::default();
    let manager = TemperatureManager::new(config);

    println!("温度监控功能: {}", manager.has_temperature_monitoring());
    println!("提供者信息: {}", manager.provider_info());

    match manager.check_temperature_status(4500) {
        Ok(status) => println!("温度状态: {}", status.describe()),
        Err(_) => println!("温度读取失败"),
    }
}

#[test]
fn test_temperature_thresholds() {
    let config = TemperatureConfig {
        enable_real_monitoring: true,
        warning_threshold_centi: 7000,
        critical_threshold_centi: 8000,
    };
    let manager = TemperatureManager::new(config);
    if manager.has_temperature_monitoring() {
        assert_eq!(
            manager.check_temperature_status(6999).unwrap(),
            TemperatureStatus::Normal
        );
        assert_eq!(
            manager.check_temperature_status(7000).unwrap(),
            TemperatureStatus::Warning
        );
        assert_eq!(
            manager.check_temperature_status(8000).unwrap(),
            TemperatureStatus::Critical
        );
    } else {
        assert!(manager.check_temperature_status(6999).is_err());
    }
}

#[test]
fn test_temperature_defaults() {
    let config = TemperatureConfig::default();
    assert!(config.enable_real_monitoring);
    assert_eq!(config.warning_threshold_centi, 7500);
    assert_eq!(config.critical_threshold_centi, 8500);
}

#[test]
fn test_platform_hints() {
    let freq = get_platform_yield_frequency();
    assert!(freq == 1000 || freq == 1500 || freq == 2000);
    let info = get_platform_info();
    assert!(!info.is_empty());
    let _fast = supports_high_performance();
}

#[test]
fn test_affinity_config_constructors() {
    assert!(CpuAffinityConfig::round_robin().enabled);
    assert!(matches!(
        CpuAffinityConfig::round_robin().strategy,
        CpuAffinityStrategy::RoundRobin
    ));
    assert!(matches!(
        CpuAffinityConfig::performance_first().strategy,
        CpuAffinityStrategy::PerformanceFirst
    ));
    assert!(matches!(
        CpuAffinityConfig::physical_cores_only().strategy,
        CpuAffinityStrategy::PhysicalCoresOnly
    ));
    assert!(!CpuAffinityConfig::disabled().enabled);

    let mapping = vec![(0u32, 0usize), (1u32, 2usize)];
    let manual = CpuAffinityConfig::manual(mapping.clone());
    assert!(manual.enabled);
    assert_eq!(manual.manual_mapping, Some(mapping));
}

#[test]
fn test_affinity_manager_disabled_assigns_nothing() {
    let mut manager = CpuAffinityManager::new(false, CpuAffinityStrategy::RoundRobin);
    assert!(!manager.is_enabled());
    assert!(manager.assign_cpu_core(0).is_none());
    assert!(manager.get_device_core(0).is_none());
    assert!(manager.bind_current_thread(0).is_ok());
}

#[test]
fn test_affinity_manager_round_robin_assignment() {
    let mut manager = CpuAffinityManager::new(true, CpuAffinityStrategy::RoundRobin);
    assert!(CpuAffinityManager::get_cpu_count() >= 1);
    assert!(CpuAffinityManager::get_physical_cpu_count() >= 1);
    if manager.is_enabled() {
        let count = manager.available_core_count();
        assert!(count >= 1);
        let core = manager.assign_cpu_core(0).unwrap();
        assert_eq!(manager.get_device_core(0), Some(core));
        let stats = manager.get_affinity_stats();
        assert!(stats.enabled);
        assert_eq!(stats.bound_devices, 1);
        assert_eq!(stats.available_cores, count);
    }
}

#[test]
fn test_with_sensor_count_rule() {
    let config = TemperatureConfig::default();
    let none = TemperatureManager::with_sensor_count(config.clone(), 0);
    assert!(!none.has_temperature_monitoring());
    let some = TemperatureManager::with_sensor_count(config.clone(), 3);
    assert!(some.has_temperature_monitoring());
    let disabled = TemperatureConfig {
        enable_real_monitoring: false,
        ..config
    };
    let off = TemperatureManager::with_sensor_count(disabled, 3);
    assert!(!off.has_temperature_monitoring());
}

#[test]
fn test_parse_thermal_reading() {
    assert_eq!(parse_thermal_reading("45000\n"), Some(4500));
    assert_eq!(parse_thermal_reading(" 45000 "), Some(4500));
    assert_eq!(parse_thermal_reading("45000"), Some(4500));
    assert_eq!(parse_thermal_reading("7"), Some(0));
    assert_eq!(parse_thermal_reading("0\n"), None);
    assert_eq!(parse_thermal_reading(""), None);
    assert_eq!(parse_thermal_reading("  \n"), None);
    assert_eq!(parse_thermal_reading("abc"), None);
    assert_eq!(parse_thermal_reading("45a00"), None);
    assert_eq!(parse_thermal_reading("-500"), None);
    assert_eq!(parse_thermal_reading("4500000000000"), None);
}
