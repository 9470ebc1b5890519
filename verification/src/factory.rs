//! Factory for the software compute core: configuration checks, a stock
//! configuration, and one-call construction of an initialized core.

use vstd::prelude::*;

use crate::device::ERROR_RATE_SCALE;
use crate::mining_core::{spec_config_valid, SoftwareMiningCore};
use crate::types::{CoreConfig, CoreError, CoreInfo, CoreType, DeviceConfig};

verus! {

/// Most workers this factory accepts in a configuration.
pub const FACTORY_MAX_DEVICE_COUNT: u64 = 100;

/// Whether a configuration passes the factory's checks: the core-level rules
/// plus, for every listed worker, a working clock, supply, temperature
/// ceiling and chip count, under this factory's stricter worker bound.
pub open spec fn spec_factory_config_valid(c: CoreConfig) -> bool {
    &&& c.name@.len() > 0
    &&& (forall|i: int|
        0 <= i < c.devices@.len() ==> {
            let d = #[trigger] c.devices@[i];
            &&& d.frequency > 0
            &&& d.voltage > 0
            &&& d.temperature_limit_centi > 0
            &&& d.chip_count > 0
        })
    &&& (c.device_count matches Some(n) ==> 1 <= n <= FACTORY_MAX_DEVICE_COUNT)
    &&& (c.min_hashrate matches Some(m) ==> m > 0)
    &&& (c.max_hashrate matches Some(m) ==> m > 0)
    &&& ((c.min_hashrate is Some && c.max_hashrate is Some) ==> c.min_hashrate->Some_0
        < c.max_hashrate->Some_0)
    &&& (c.error_rate_ppm matches Some(e) ==> e <= ERROR_RATE_SCALE)
}

/// Builds software compute cores.
pub struct SoftwareCoreFactory {
    pub core_info: CoreInfo,
}

impl SoftwareCoreFactory {
    /// A factory describing the software core.
    pub fn new() -> (r: SoftwareCoreFactory)
        ensures
            r.core_info.core_type matches CoreType::Custom(t) && t@ == "software"@,
    {
        let core_info: CoreInfo = CoreInfo::new(
            "Software Mining Core".to_owned(),
            CoreType::Custom("software".to_owned()),
            crate::VERSION.to_owned(),
            "software compute core running the double-digest search on processor cores".to_owned(),
            "CGMiner Rust Team".to_owned(),
            Vec::new(),
        );
        SoftwareCoreFactory { core_info }
    }

    /// The family of cores this factory builds.
    pub fn core_type(&self) -> (r: CoreType)
        ensures
            r matches CoreType::Custom(t) && t@ == "software"@,
    {
        CoreType::Custom("software".to_owned())
    }

    /// Checks a configuration against the factory's rules.
    pub fn validate_config(&self, config: &CoreConfig) -> (r: Result<(), CoreError>)
        ensures
            r is Ok <==> spec_factory_config_valid(*config),
    {
        if config.name.as_str().is_empty() {
            return Err(CoreError::Config("the core needs a non-empty name".to_owned()));
        }
        let n: usize = config.devices.len();
        let mut i: usize = 0;
        while i < n
            invariant
                i <= n,
                n == config.devices@.len(),
                forall|k: int|
                    0 <= k < i ==> {
                        let d = #[trigger] config.devices@[k];
                        &&& d.frequency > 0
                        &&& d.voltage > 0
                        &&& d.temperature_limit_centi > 0
                        &&& d.chip_count > 0
                    },
            decreases n - i,
        {
            let d: &DeviceConfig = &config.devices[i];
            if d.frequency == 0 {
                return Err(
                    CoreError::Config("a worker's clock setting must not be zero".to_owned()),
                );
            }
            if d.voltage == 0 {
                return Err(
                    CoreError::Config("a worker's supply setting must not be zero".to_owned()),
                );
            }
            if d.temperature_limit_centi == 0 {
                return Err(
                    CoreError::Config(
                        "a worker's temperature ceiling must be positive".to_owned(),
                    ),
                );
            }
            if d.chip_count == 0 {
                return Err(
                    CoreError::Config("a worker's chip count must not be zero".to_owned()),
                );
            }
            i = i + 1;
        }
        if let Some(count) = config.device_count {
            if count == 0 {
                return Err(CoreError::Config("the worker count must not be zero".to_owned()));
            }
            if count > FACTORY_MAX_DEVICE_COUNT {
                return Err(CoreError::Config("the worker count is over the bound".to_owned()));
            }
        }
        if let Some(min_rate) = config.min_hashrate {
            if min_rate == 0 {
                return Err(
                    CoreError::Config("the lower throughput bound must be positive".to_owned()),
                );
            }
        }
        if let Some(max_rate) = config.max_hashrate {
            if max_rate == 0 {
                return Err(
                    CoreError::Config("the upper throughput bound must be positive".to_owned()),
                );
            }
        }
        if let Some(min_rate) = config.min_hashrate {
            if let Some(max_rate) = config.max_hashrate {
                if min_rate >= max_rate {
                    return Err(
                        CoreError::Config(
                            "the lower throughput bound must stay below the upper one".to_owned(),
                        ),
                    );
                }
            }
        }
        if let Some(error_rate) = config.error_rate_ppm {
            if error_rate > ERROR_RATE_SCALE {
                return Err(
                    CoreError::Config(
                        "the error-injection rate must be a proper fraction".to_owned(),
                    ),
                );
            }
        }
        Ok(())
    }

    /// The stock factory configuration: four workers with stepped clock and
    /// supply settings, a one-to-five gigahash range, one per cent error
    /// injection and thousand-candidate batches.
    pub fn default_config(&self) -> (c: CoreConfig)
        ensures
            spec_factory_config_valid(c),
            spec_config_valid(c),
            c.device_count == Some(4u64),
            c.min_hashrate == Some(1_000_000_000u64),
            c.max_hashrate == Some(5_000_000_000u64),
            c.error_rate_ppm == Some(10_000u32),
            c.batch_size == Some(1000u64),
            c.devices@.len() == 4,
    {
        let mut devices: Vec<DeviceConfig> = Vec::new();
        devices.push(
            DeviceConfig {
                chain_id: 0,
                enabled: true,
                frequency: 600,
                voltage: 900,
                auto_tune: false,
                chip_count: 64,
                temperature_limit_centi: 8000,
                fan_speed: Some(50),
            },
        );
        devices.push(
            DeviceConfig {
                chain_id: 1,
                enabled: true,
                frequency: 650,
                voltage: 920,
                auto_tune: false,
                chip_count: 64,
                temperature_limit_centi: 8000,
                fan_speed: Some(55),
            },
        );
        devices.push(
            DeviceConfig {
                chain_id: 2,
                enabled: true,
                frequency: 700,
                voltage: 950,
                auto_tune: false,
                chip_count: 64,
                temperature_limit_centi: 8000,
                fan_speed: Some(60),
            },
        );
        devices.push(
            DeviceConfig {
                chain_id: 3,
                enabled: true,
                frequency: 750,
                voltage: 980,
                auto_tune: false,
                chip_count: 64,
                temperature_limit_centi: 8000,
                fan_speed: Some(65),
            },
        );
        let c: CoreConfig = CoreConfig {
            name: "software-core".to_owned(),
            enabled: true,
            devices,
            device_count: Some(4),
            min_hashrate: Some(1_000_000_000),
            max_hashrate: Some(5_000_000_000),
            error_rate_ppm: Some(10_000),
            batch_size: Some(1000),
            work_timeout_ms: Some(5000),
            cpu_affinity_enabled: None,
            cpu_affinity_strategy: None,
        };
        proof {
            reveal_strlit("software-core");
        }
        c
    }

    /// Builds and initializes a core from a configuration.  Construction
    /// succeeds exactly when the core accepts the configuration.
    pub fn create_core(&self, config: CoreConfig) -> (r: Result<SoftwareMiningCore, CoreError>)
        ensures
            r is Ok <==> spec_config_valid(config),
            r matches Ok(c) ==> {
                &&& c.wf()
                &&& 1 <= c.devices@.len()
                &&& c.config == Some(config)
            },
    {
        let mut core: SoftwareMiningCore = SoftwareMiningCore::new(config.name.clone());
        match core.initialize(config) {
            Ok(()) => Ok(core),
            Err(e) => Err(e),
        }
    }
}

impl Default for SoftwareCoreFactory {
    /// A factory describing the software core.
    fn default() -> (r: SoftwareCoreFactory)
        ensures
            r.core_info.core_type matches CoreType::Custom(t) && t@ == "software"@,
    {
        SoftwareCoreFactory::new()
    }
}

} // verus!
