//! Performance tuning rules: system-adaptive batch sizing and core binding.

use vstd::prelude::*;

use crate::affinity::CpuAffinityConfig;
use crate::types::DeviceConfig;

verus! {

/// Tunable performance knobs.
#[derive(Debug, Clone)]
pub struct PerformanceConfig {
    pub cpu_affinity: CpuAffinityConfig,
    /// Baseline target throughput in hashes per second.
    pub base_hashrate: u64,
    pub batch_size: u32,
    pub enable_optimizations: bool,
}

impl Default for PerformanceConfig {
    /// The stock tuning: optimizations on, a two-gigahash baseline and a
    /// thousand-candidate batch.
    fn default() -> (c: PerformanceConfig)
        ensures
            c.base_hashrate == 2_000_000_000,
            c.batch_size == 1000,
            c.enable_optimizations,
            c.cpu_affinity.enabled,
    {
        PerformanceConfig {
            cpu_affinity: CpuAffinityConfig::default(),
            base_hashrate: 2_000_000_000,
            batch_size: 1000,
            enable_optimizations: true,
        }
    }
}

/// The tuning that fits a machine with the given processor counts: larger
/// batches on wider machines, and core binding once enough physical cores
/// exist to make it pay.
pub open spec fn spec_tuned(
    config: PerformanceConfig,
    cpu_count: usize,
    physical_count: usize,
) -> PerformanceConfig {
    let batched = if cpu_count >= 8 {
        PerformanceConfig { enable_optimizations: true, batch_size: 2000u32, ..config }
    } else if cpu_count >= 4 {
        PerformanceConfig { batch_size: 1500u32, ..config }
    } else {
        PerformanceConfig { batch_size: 1000u32, ..config }
    };
    if physical_count >= 4 {
        PerformanceConfig {
            cpu_affinity: CpuAffinityConfig { enabled: true, ..batched.cpu_affinity },
            ..batched
        }
    } else {
        batched
    }
}

/// Applies the tuning rules to a configuration.
pub struct PerformanceOptimizer {
    config: PerformanceConfig,
}

impl PerformanceOptimizer {
    /// The configuration currently held.
    pub closed spec fn spec_config(&self) -> PerformanceConfig {
        self.config
    }

    /// Wraps a configuration for tuning.
    pub fn new(config: PerformanceConfig) -> (o: PerformanceOptimizer)
        ensures
            o.spec_config() == config,
    {
        PerformanceOptimizer { config }
    }

    /// Retunes for the given processor counts.
    pub fn optimize_for_counts(&mut self, cpu_count: usize, physical_count: usize)
        ensures
            final(self).spec_config() == spec_tuned(
                old(self).spec_config(),
                cpu_count,
                physical_count,
            ),
    {
        if cpu_count >= 8 {
            self.config.enable_optimizations = true;
            self.config.batch_size = 2000;
        } else if cpu_count >= 4 {
            self.config.batch_size = 1500;
        } else {
            self.config.batch_size = 1000;
        }
        if physical_count >= 4 {
            self.config.cpu_affinity.enabled = true;
        }
    }

    /// Retunes for the machine this process runs on.
    pub fn optimize_for_system(&mut self)
        ensures
            exists|cpu_count: usize, physical_count: usize|
                cpu_count >= 1 && physical_count >= 1 && final(self).spec_config()
                    == #[trigger] spec_tuned(old(self).spec_config(), cpu_count, physical_count),
    {
        let cpu_count: usize = num_cpus::get();
        let physical_count: usize = num_cpus::get_physical();
        self.optimize_for_counts(cpu_count, physical_count);
        proof {
            assert(cpu_count >= 1 && physical_count >= 1 && final(self).spec_config() == spec_tuned(
                old(self).spec_config(),
                cpu_count,
                physical_count,
            ));
        }
    }

    /// The configuration currently held.
    pub fn get_config(&self) -> (r: &PerformanceConfig)
        ensures
            *r == self.spec_config(),
    {
        &self.config
    }

    /// Nudges one worker's clock and voltage settings apart from its
    /// neighbours', when optimizations are on.
    pub fn apply_to_device_config(&self, device_config: &mut DeviceConfig, device_id: u32)
        requires
            old(device_config).frequency <= u32::MAX - 75,
            old(device_config).voltage <= u32::MAX - 20,
        ensures
            self.spec_config().enable_optimizations ==> *final(device_config) == (DeviceConfig {
                frequency: (old(device_config).frequency + (device_id % 4) * 25) as u32,
                voltage: (old(device_config).voltage + (device_id % 3) * 10) as u32,
                ..*old(device_config)
            }),
            !self.spec_config().enable_optimizations ==> *final(device_config) == *old(
                device_config,
            ),
    {
        if self.config.enable_optimizations {
            device_config.frequency = device_config.frequency + (device_id % 4) * 25;
            device_config.voltage = device_config.voltage + (device_id % 3) * 10;
        }
    }
}

} // verus!
