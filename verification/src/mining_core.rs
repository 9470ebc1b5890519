//! The aggregating core: owns a collection of workers, fans submitted work
//! out to every worker's queue, fans buffered results back in, and recomputes
//! system-wide statistics from the workers' raw counters — never by averaging
//! their averages.

use vstd::prelude::*;

use std::sync::Arc;

use crate::affinity::{CpuAffinityManager, CpuAffinityStrategy};
use crate::clock::now_nanos;
use crate::device::{SoftwareDevice, ERROR_RATE_SCALE};
use crate::performance::{PerformanceConfig, PerformanceOptimizer};
use crate::queue::LockFreeWorkQueue;
use crate::types::{
    CoreCapabilities, CoreConfig, CoreError, CoreInfo, CoreStats, CoreType, CpuCacheInfo,
    CpuSpecificCapabilities, DeviceConfig, DeviceInfo, FanCapabilities, FrequencyCapabilities,
    TemperatureCapabilities, VoltageCapabilities,
};
use crate::work::{MiningResult, Work};

verus! {

/// Most workers a core will run.
pub const MAX_DEVICE_COUNT: u64 = 1000;

/// Workers created when the configuration does not say how many.
pub const DEFAULT_DEVICE_COUNT: u32 = 4;

/// Worker ids handed out by this core start here.
pub const DEVICE_ID_BASE: u32 = 1000;

/// Sum of the accepted counts of the first `n` workers.
pub open spec fn devs_sum_accepted(devs: Seq<SoftwareDevice>, n: int) -> int
    decreases n,
{
    if n <= 0 {
        0
    } else {
        devs_sum_accepted(devs, n - 1) + devs[n - 1].atomic_stats.accepted_work
    }
}

/// Sum of the rejected counts of the first `n` workers.
pub open spec fn devs_sum_rejected(devs: Seq<SoftwareDevice>, n: int) -> int
    decreases n,
{
    if n <= 0 {
        0
    } else {
        devs_sum_rejected(devs, n - 1) + devs[n - 1].atomic_stats.rejected_work
    }
}

/// Sum of the hardware-error counts of the first `n` workers.
pub open spec fn devs_sum_errors(devs: Seq<SoftwareDevice>, n: int) -> int
    decreases n,
{
    if n <= 0 {
        0
    } else {
        devs_sum_errors(devs, n - 1) + devs[n - 1].atomic_stats.hardware_errors
    }
}

/// Sum of the raw hash totals of the first `n` workers.
pub open spec fn devs_sum_hashes(devs: Seq<SoftwareDevice>, n: int) -> int
    decreases n,
{
    if n <= 0 {
        0
    } else {
        devs_sum_hashes(devs, n - 1) + devs[n - 1].atomic_stats.total_hashes
    }
}

/// Sum of the elapsed-time throughputs of the first `n` workers at `now`.
pub open spec fn devs_sum_rates(devs: Seq<SoftwareDevice>, now: u64, n: int) -> int
    decreases n,
{
    if n <= 0 {
        0
    } else {
        devs_sum_rates(devs, now, n - 1) + crate::stats::device_rate(
            devs[n - 1].atomic_stats,
            now,
        )
    }
}

/// How many of the first `n` workers report healthy.
pub open spec fn devs_count_healthy(devs: Seq<SoftwareDevice>, n: int) -> int
    decreases n,
{
    if n <= 0 {
        0
    } else {
        devs_count_healthy(devs, n - 1) + (if devs[n - 1].spec_healthy() {
            1int
        } else {
            0int
        })
    }
}

/// The buffered results of the first `n` workers, in worker order.
pub open spec fn devs_outboxes(devs: Seq<SoftwareDevice>, n: int) -> Seq<MiningResult>
    decreases n,
{
    if n <= 0 {
        Seq::<MiningResult>::empty()
    } else {
        devs_outboxes(devs, n - 1) + devs[n - 1].outbox@
    }
}

/// Whether a core configuration passes validation: a name is present, any
/// worker count stays within bounds, any throughput bounds are positive with
/// the lower one below the upper one, and any error-injection rate is a
/// proper fraction.
pub open spec fn spec_config_valid(c: CoreConfig) -> bool {
    &&& c.name@.len() > 0
    &&& (c.device_count matches Some(n) ==> 1 <= n <= MAX_DEVICE_COUNT)
    &&& (c.min_hashrate matches Some(m) ==> m > 0)
    &&& (c.max_hashrate matches Some(m) ==> m > 0)
    &&& ((c.min_hashrate is Some && c.max_hashrate is Some) ==> c.min_hashrate->Some_0
        < c.max_hashrate->Some_0)
    &&& (c.error_rate_ppm matches Some(e) ==> e <= ERROR_RATE_SCALE)
}

/// The worker count a configuration asks for, or the stock count when it
/// does not say or asks for something out of bounds.
pub open spec fn spec_requested_count(c: CoreConfig) -> u32 {
    match c.device_count {
        Some(n) => if 1 <= n && n <= MAX_DEVICE_COUNT {
            n as u32
        } else {
            DEFAULT_DEVICE_COUNT
        },
        None => DEFAULT_DEVICE_COUNT,
    }
}

/// The target throughput of worker `i` of `count`: the configured range is
/// spread evenly across the workers from its lower end.
pub open spec fn spec_device_hashrate(min_rate: int, max_rate: int, i: int, count: int) -> int {
    let delta = if max_rate >= min_rate {
        max_rate - min_rate
    } else {
        0
    };
    min_rate + delta * i / count
}

/// The compute core: a collection of workers behind one submission and
/// collection surface.
pub struct SoftwareMiningCore {
    pub core_info: CoreInfo,
    pub capabilities: CoreCapabilities,
    pub config: Option<CoreConfig>,
    pub devices: Vec<SoftwareDevice>,
    pub stats: CoreStats,
    pub running: bool,
    pub start_time_nanos: Option<u64>,
    pub performance_optimizer: Option<PerformanceOptimizer>,
    pub cpu_affinity_manager: Option<CpuAffinityManager>,
    /// Results pushed by workers and not yet collected.
    pub collected_results: Vec<MiningResult>,
}

impl SoftwareMiningCore {
    /// A well-formed core: not more workers than the bound, every worker
    /// intact, and any affinity manager intact.
    pub open spec fn wf(&self) -> bool {
        &&& self.devices@.len() <= MAX_DEVICE_COUNT
        &&& (forall|i: int| 0 <= i < self.devices@.len() ==> (#[trigger] self.devices@[i]).wf())
        &&& (self.cpu_affinity_manager matches Some(m) ==> m.wf())
    }

    /// Builds an idle core with no workers yet.
    pub fn new(name: String) -> (c: SoftwareMiningCore)
        ensures
            c.wf(),
            c.core_info.name@ == name@,
            c.devices@.len() == 0,
            !c.running,
            c.config is None,
            c.collected_results@.len() == 0,
    {
        let info_name: String = name.clone();
        let core_info: CoreInfo = CoreInfo::new(
            info_name,
            CoreType::Custom("optimized_cpu".to_owned()),
            crate::VERSION.to_owned(),
            "software compute core running the double-digest search on processor cores".to_owned(),
            "CGMiner Rust Team".to_owned(),
            Vec::new(),
        );
        let capabilities: CoreCapabilities = CoreCapabilities {
            supports_auto_tuning: false,
            temperature_capabilities: TemperatureCapabilities {
                supports_monitoring: true,
                supports_control: false,
                supports_threshold_alerts: true,
                monitoring_precision_centi: Some(100),
            },
            voltage_capabilities: VoltageCapabilities {
                supports_monitoring: false,
                supports_control: false,
                control_range: None,
            },
            frequency_capabilities: FrequencyCapabilities {
                supports_monitoring: false,
                supports_control: false,
                control_range: None,
            },
            fan_capabilities: FanCapabilities {
                supports_monitoring: false,
                supports_control: false,
                fan_count: None,
            },
            supports_multiple_chains: true,
            max_devices: Some(64),
            supported_algorithms: Vec::new(),
            cpu_capabilities: Some(
                CpuSpecificCapabilities {
                    simd_support: Vec::new(),
                    supports_cpu_affinity: true,
                    supports_numa_awareness: true,
                    physical_cores: cpu_count_u32(num_cpus::get_physical()),
                    logical_cores: cpu_count_u32(num_cpus::get()),
                    cache_info: Some(
                        CpuCacheInfo {
                            l1_data_kb: 32,
                            l1_instruction_kb: 32,
                            l2_kb: 256,
                            l3_kb: 8192,
                        },
                    ),
                },
            ),
            core_type: CoreType::Custom("optimized_cpu".to_owned()),
        };
        SoftwareMiningCore {
            core_info,
            capabilities,
            config: None,
            devices: Vec::new(),
            stats: CoreStats::new(name),
            running: false,
            start_time_nanos: None,
            performance_optimizer: None,
            cpu_affinity_manager: None,
            collected_results: Vec::new(),
        }
    }

    /// Descriptive information about the core.
    pub fn get_info(&self) -> (r: &CoreInfo)
        ensures
            *r == self.core_info,
    {
        &self.core_info
    }

    /// What this core can and cannot do.
    pub fn get_capabilities(&self) -> (r: &CoreCapabilities)
        ensures
            *r == self.capabilities,
    {
        &self.capabilities
    }

    /// Checks a configuration: every recognised option must be in range.
    pub fn validate_config(&self, config: &CoreConfig) -> (r: Result<(), CoreError>)
        ensures
            r is Ok <==> spec_config_valid(*config),
    {
        if config.name.as_str().is_empty() {
            return Err(CoreError::Config("the core needs a non-empty name".to_owned()));
        }
        if let Some(count) = config.device_count {
            if count == 0 {
                return Err(CoreError::Config("the worker count must not be zero".to_owned()));
            }
            if count > MAX_DEVICE_COUNT {
                return Err(CoreError::Config("the worker count is over the bound".to_owned()));
            }
        }
        if let Some(min_rate) = config.min_hashrate {
            if min_rate == 0 {
                return Err(
                    CoreError::Config("the lower throughput bound must be positive".to_owned()),
                );
            }
        }
        if let Some(max_rate) = config.max_hashrate {
            if max_rate == 0 {
                return Err(
                    CoreError::Config("the upper throughput bound must be positive".to_owned()),
                );
            }
        }
        if let Some(min_rate) = config.min_hashrate {
            if let Some(max_rate) = config.max_hashrate {
                if min_rate >= max_rate {
                    return Err(
                        CoreError::Config(
                            "the lower throughput bound must stay below the upper one".to_owned(),
                        ),
                    );
                }
            }
        }
        if let Some(error_rate) = config.error_rate_ppm {
            if error_rate > ERROR_RATE_SCALE {
                return Err(
                    CoreError::Config(
                        "the error-injection rate must be a proper fraction".to_owned(),
                    ),
                );
            }
        }
        Ok(())
    }

    /// The stock configuration: four workers, a one-to-five gigahash range,
    /// one per cent error injection and thousand-candidate batches.
    pub fn default_config(&self) -> (c: CoreConfig)
        ensures
            spec_config_valid(c),
            c.device_count == Some(4u64),
            c.min_hashrate == Some(1_000_000_000u64),
            c.max_hashrate == Some(5_000_000_000u64),
            c.error_rate_ppm == Some(10_000u32),
            c.batch_size == Some(1000u64),
            c.devices@.len() == 4,
    {
        let mut devices: Vec<DeviceConfig> = Vec::new();
        devices.push(DeviceConfig::default());
        devices.push(DeviceConfig::default());
        devices.push(DeviceConfig::default());
        devices.push(DeviceConfig::default());
        let c: CoreConfig = CoreConfig {
            name: "software-core".to_owned(),
            enabled: true,
            devices,
            device_count: Some(4),
            min_hashrate: Some(1_000_000_000),
            max_hashrate: Some(5_000_000_000),
            error_rate_ppm: Some(10_000),
            batch_size: Some(1000),
            work_timeout_ms: Some(5000),
            cpu_affinity_enabled: None,
            cpu_affinity_strategy: None,
        };
        proof {
            reveal_strlit("software-core");
        }
        c
    }

    /// The worker count a configuration asks for, or the stock count.
    pub fn get_device_count_from_config_with_params(&self, config: &CoreConfig) -> (r: u32)
        ensures
            r == spec_requested_count(*config),
            1 <= r <= MAX_DEVICE_COUNT,
    {
        match config.device_count {
            Some(count) => {
                if 1 <= count && count <= MAX_DEVICE_COUNT {
                    count as u32
                } else {
                    DEFAULT_DEVICE_COUNT
                }
            },
            None => DEFAULT_DEVICE_COUNT,
        }
    }

    /// The worker count the held configuration asks for, or the stock count.
    pub fn get_device_count_from_config(&self) -> (r: u32)
        ensures
            match self.config {
                Some(c) => r == spec_requested_count(c),
                None => r == DEFAULT_DEVICE_COUNT,
            },
            1 <= r <= MAX_DEVICE_COUNT,
    {
        match &self.config {
            Some(config) => match config.device_count {
                Some(count) => {
                    if 1 <= count && count <= MAX_DEVICE_COUNT {
                        count as u32
                    } else {
                        DEFAULT_DEVICE_COUNT
                    }
                },
                None => DEFAULT_DEVICE_COUNT,
            },
            None => DEFAULT_DEVICE_COUNT,
        }
    }

    /// Builds `device_count` workers from a configuration: each takes its
    /// slice of the configured throughput range, the configured error rate
    /// and batch hint, a fresh queue and zeroed statistics, and reports
    /// found results through the core's collector.
    pub fn create_software_devices(&mut self, config: &CoreConfig, device_count: u32) -> (r: Result<
        Vec<SoftwareDevice>,
        CoreError,
    >)
        requires
            old(self).wf(),
            1 <= device_count <= MAX_DEVICE_COUNT,
            config.error_rate_ppm matches Some(e) ==> e <= ERROR_RATE_SCALE,
        ensures
            final(self).wf(),
            ({
                let min_rate = if old(self).spec_min_rate(*config) > 0 {
                    old(self).spec_min_rate(*config)
                } else {
                    0
                };
                r matches Ok(v) && {
                    &&& v@.len() == device_count
                    &&& (forall|i: int|
                        0 <= i < v@.len() ==> {
                            let d = #[trigger] v@[i];
                            &&& d.wf()
                            &&& d.status is Uninitialized
                            &&& d.device_info.id == DEVICE_ID_BASE + i
                            &&& d.has_result_channel
                            &&& d.error_rate_ppm == old(self).spec_error_rate(*config)
                            &&& d.target_hashrate as int == spec_device_hashrate(
                                old(self).spec_min_rate(*config),
                                old(self).spec_max_rate(*config),
                                i,
                                device_count as int,
                            )
                            &&& !d.mining_stop
                            &&& d.outbox@.len() == 0
                        })
                }
            }),
    {
        let min_rate: u64 = match config.min_hashrate {
            Some(m) => m,
            None => 30_000_000,
        };
        let max_rate: u64 = match config.max_hashrate {
            Some(m) => m,
            None => 40_000_000,
        };
        let error_rate_ppm: u32 = match config.error_rate_ppm {
            Some(e) => e,
            None => 10_000,
        };
        let batch_size: u32 = match config.batch_size {
            Some(b) => {
                if b > u32::MAX as u64 {
                    u32::MAX
                } else {
                    b as u32
                }
            },
            None => 1_000_000,
        };
        let delta: u64 = if max_rate >= min_rate {
            max_rate - min_rate
        } else {
            0
        };

        let mut devices: Vec<SoftwareDevice> = Vec::new();
        let mut i: u32 = 0;
        while i < device_count
            invariant
                i <= device_count,
                1 <= device_count <= MAX_DEVICE_COUNT,
                devices@.len() == i,
                self.wf(),
                *self == (SoftwareMiningCore {
                    cpu_affinity_manager: self.cpu_affinity_manager,
                    ..*old(self)
                }),
                min_rate as int == old(self).spec_min_rate(*config),
                max_rate as int == old(self).spec_max_rate(*config),
                error_rate_ppm == old(self).spec_error_rate(*config),
                error_rate_ppm <= ERROR_RATE_SCALE,
                delta as int == (if max_rate >= min_rate {
                    max_rate - min_rate
                } else {
                    0
                }),
                forall|k: int|
                    0 <= k < devices@.len() ==> {
                        let d = #[trigger] devices@[k];
                        &&& d.wf()
                        &&& d.status is Uninitialized
                        &&& d.device_info.id == DEVICE_ID_BASE + k
                        &&& d.has_result_channel
                        &&& d.error_rate_ppm == error_rate_ppm
                        &&& d.target_hashrate as int == spec_device_hashrate(
                            min_rate as int,
                            max_rate as int,
                            k,
                            device_count as int,
                        )
                        &&& !d.mining_stop
                        &&& d.outbox@.len() == 0
                    },
            decreases device_count - i,
        {
            proof {
                assert((delta as int) * (i as int) <= (u64::MAX as int) * (MAX_DEVICE_COUNT as int))
                    by (nonlinear_arith)
                    requires
                        0 <= delta as int <= u64::MAX as int,
                        0 <= i as int <= MAX_DEVICE_COUNT as int,
                ;
                assert(0 <= (delta as int) * (i as int)) by (nonlinear_arith)
                    requires
                        0 <= delta as int,
                        0 <= i as int,
                ;
                vstd::arithmetic::mul::lemma_mul_inequality(
                    i as int,
                    device_count as int,
                    delta as int,
                );
                assert((i as int) * (delta as int) == (delta as int) * (i as int))
                    by (nonlinear_arith);
                assert((device_count as int) * (delta as int) == (delta as int) * (
                device_count as int)) by (nonlinear_arith);
                vstd::arithmetic::div_mod::lemma_div_is_ordered(
                    (delta as int) * (i as int),
                    (delta as int) * (device_count as int),
                    device_count as int,
                );
                vstd::arithmetic::div_mod::lemma_div_multiples_vanish(
                    delta as int,
                    device_count as int,
                );
                vstd::arithmetic::div_mod::lemma_div_pos_is_pos(
                    (delta as int) * (i as int),
                    device_count as int,
                );
            }
            let wide: u128 = (delta as u128) * (i as u128) / (device_count as u128);
            let device_hashrate: u64 = min_rate + (wide as u64);

            let device_info: DeviceInfo = DeviceInfo::new(
                DEVICE_ID_BASE + i,
                "software worker".to_owned(),
                "software".to_owned(),
                (i % 256) as u8,
            );
            let mut device_config: DeviceConfig = if (i as usize) < config.devices.len() {
                clone_device_config(&config.devices[i as usize])
            } else {
                DeviceConfig::default()
            };
            // Spread the workers' tuning apart; a setting already at the top
            // of its range is left alone rather than pushed over it.
            match &self.performance_optimizer {
                Some(optimizer) => {
                    if device_config.frequency <= u32::MAX - 75 && device_config.voltage
                        <= u32::MAX - 20 {
                        optimizer.apply_to_device_config(&mut device_config, DEVICE_ID_BASE + i);
                    }
                },
                None => {},
            }

            let built: Result<SoftwareDevice, crate::types::DeviceError> = match &mut self
                .cpu_affinity_manager {
                Some(manager) => SoftwareDevice::new_with_cpu_affinity(
                    device_info,
                    device_config,
                    device_hashrate,
                    error_rate_ppm,
                    batch_size,
                    manager,
                ),
                None => SoftwareDevice::new(
                    device_info,
                    device_config,
                    device_hashrate,
                    error_rate_ppm,
                    batch_size,
                ),
            };
            match built {
                Ok(mut device) => {
                    device.set_result_sender();
                    devices.push(device);
                },
                Err(e) => {
                    return Err(CoreError::Device(e));
                },
            }
            i = i + 1;
        }
        Ok(devices)
    }

    /// Validates and applies a configuration: tunes performance for the
    /// machine, switches on core binding when the tuning says so, creates
    /// the workers (never more than the machine has processors) and moves
    /// them to idle.
    pub fn initialize(&mut self, config: CoreConfig) -> (r: Result<(), CoreError>)
        requires
            old(self).wf(),
        ensures
            final(self).wf(),
            r is Ok <==> spec_config_valid(config),
            !spec_config_valid(config) ==> *final(self) == *old(self),
            r is Ok ==> {
                &&& final(self).config == Some(config)
                &&& 1 <= final(self).devices@.len() <= MAX_DEVICE_COUNT
                &&& (forall|i: int|
                    0 <= i < final(self).devices@.len() ==> {
                        let d = #[trigger] final(self).devices@[i];
                        &&& d.wf()
                        &&& d.status is Idle
                        &&& d.has_result_channel
                        &&& d.error_rate_ppm == old(self).spec_error_rate(config)
                    })
            },
    {
        if let Err(e) = self.validate_config(&config) {
            return Err(e);
        }

        let mut optimizer: PerformanceOptimizer = PerformanceOptimizer::new(
            PerformanceConfig::default(),
        );
        optimizer.optimize_for_system();
        let affinity_wanted: bool = optimizer.get_config().cpu_affinity.enabled;
        self.performance_optimizer = Some(optimizer);
        if affinity_wanted {
            self.cpu_affinity_manager = Some(
                CpuAffinityManager::new(true, CpuAffinityStrategy::Intelligent),
            );
        }

        let requested: u32 = self.get_device_count_from_config_with_params(&config);
        let cpu_cores: u32 = cpu_count_u32(num_cpus::get());
        let effective: u32 = if requested > cpu_cores && cpu_cores >= 1 {
            cpu_cores
        } else {
            requested
        };

        let mut devices: Vec<SoftwareDevice> = match self.create_software_devices(
            &config,
            effective,
        ) {
            Ok(v) => v,
            Err(e) => {
                return Err(e);
            },
        };

        let n: usize = devices.len();
        let mut i: usize = 0;
        while i < n
            invariant
                i <= n,
                n == devices@.len(),
                1 <= n <= MAX_DEVICE_COUNT,
                forall|k: int|
                    i <= k < n ==> {
                        let d = #[trigger] devices@[k];
                        &&& d.wf()
                        &&& d.has_result_channel
                        &&& d.error_rate_ppm == old(self).spec_error_rate(config)
                    },
                forall|k: int|
                    0 <= k < i ==> {
                        let d = #[trigger] devices@[k];
                        &&& d.wf()
                        &&& d.status is Idle
                        &&& d.has_result_channel
                        &&& d.error_rate_ppm == old(self).spec_error_rate(config)
                    },
            decreases n - i,
        {
            let device_config: DeviceConfig = clone_device_config(&devices[i].config);
            let _init_result: Result<(), crate::types::DeviceError> = devices[i].initialize(
                device_config,
            );
            i = i + 1;
        }

        self.devices = devices;
        self.config = Some(config);
        Ok(())
    }

    /// Starts every worker and marks the core running.  A core that is
    /// already running refuses to start twice.
    pub fn start(&mut self) -> (r: Result<(), CoreError>)
        requires
            old(self).wf(),
        ensures
            final(self).wf(),
            r is Ok <==> !old(self).running,
            old(self).running ==> *final(self) == *old(self),
            r is Ok ==> {
                &&& final(self).running
                &&& final(self).devices@.len() == old(self).devices@.len()
                &&& (forall|i: int|
                    0 <= i < final(self).devices@.len() ==> {
                        let d = #[trigger] final(self).devices@[i];
                        &&& d.status is Running
                        &&& !d.mining_stop
                    })
            },
    {
        if self.running {
            return Err(CoreError::Runtime("the core is already running".to_owned()));
        }
        let n: usize = self.devices.len();
        let mut i: usize = 0;
        while i < n
            invariant
                i <= n,
                n == self.devices@.len(),
                self.wf(),
                *self == (SoftwareMiningCore { devices: self.devices, ..*old(self) }),
                forall|k: int|
                    0 <= k < i ==> {
                        let d = #[trigger] self.devices@[k];
                        &&& d.status is Running
                        &&& !d.mining_stop
                    },
            decreases n - i,
        {
            let _start_result: Result<(), crate::types::DeviceError> = self.devices[i].start();
            i = i + 1;
        }
        self.running = true;
        self.start_time_nanos = Some(now_nanos());
        Ok(())
    }

    /// Stops every worker and marks the core stopped: each worker raises its
    /// stop flag, goes idle and purges its stale pending work.
    pub fn stop(&mut self) -> (r: Result<(), CoreError>)
        requires
            old(self).wf(),
        ensures
            final(self).wf(),
            r is Ok,
            !final(self).running,
            final(self).devices@.len() == old(self).devices@.len(),
            forall|i: int|
                0 <= i < final(self).devices@.len() ==> {
                    let d = #[trigger] final(self).devices@[i];
                    &&& d.status is Idle
                    &&& d.mining_stop
                },
    {
        self.running = false;
        let n: usize = self.devices.len();
        let mut i: usize = 0;
        while i < n
            invariant
                i <= n,
                n == self.devices@.len(),
                self.wf(),
                !self.running,
                forall|k: int|
                    0 <= k < i ==> {
                        let d = #[trigger] self.devices@[k];
                        &&& d.status is Idle
                        &&& d.mining_stop
                    },
            decreases n - i,
        {
            let _stop_result: Result<(), crate::types::DeviceError> = self.devices[i].stop();
            i = i + 1;
        }
        Ok(())
    }

    /// Stops and starts the core again.
    pub fn restart(&mut self) -> (r: Result<(), CoreError>)
        requires
            old(self).wf(),
        ensures
            final(self).wf(),
            r is Ok,
            final(self).running,
    {
        let _stop_result: Result<(), CoreError> = self.stop();
        self.start()
    }

    /// How many workers the core holds.
    pub fn device_count(&self) -> (r: Result<u32, CoreError>)
        requires
            self.wf(),
        ensures
            r matches Ok(n) && n == self.devices@.len(),
    {
        Ok(self.devices.len() as u32)
    }

    /// Fans one job out to every worker's queue.  A worker whose queue is
    /// full keeps its backlog and the overall submission still succeeds.
    pub fn submit_work(&mut self, work: Work) -> (r: Result<(), CoreError>)
        requires
            old(self).wf(),
            forall|i: int|
                0 <= i < old(self).devices@.len() ==> {
                    let q = (#[trigger] old(self).devices@[i]).work_queue@;
                    &&& q.total_enqueued < usize::MAX
                    &&& q.active_count < usize::MAX
                    &&& q.queue_full_count < usize::MAX
                },
        ensures
            final(self).wf(),
            r is Ok,
            final(self).devices@.len() == old(self).devices@.len(),
            forall|i: int|
                0 <= i < final(self).devices@.len() ==> {
                    let d = #[trigger] final(self).devices@[i];
                    &&& d.work_queue@ == LockFreeWorkQueue::spec_enqueue(
                        old(self).devices@[i].work_queue@,
                        work@,
                    )
                    &&& d == (SoftwareDevice { work_queue: d.work_queue, ..old(self).devices@[i] })
                },
            *final(self) == (SoftwareMiningCore { devices: final(self).devices, ..*old(self) }),
    {
        let shared: Arc<Work> = Arc::new(work);
        let n: usize = self.devices.len();
        let mut i: usize = 0;
        while i < n
            invariant
                i <= n,
                n == self.devices@.len(),
                self.wf(),
                shared@ == work@,
                *self == (SoftwareMiningCore { devices: self.devices, ..*old(self) }),
                forall|k: int|
                    i <= k < n ==> #[trigger] self.devices@[k] == old(self).devices@[k],
                forall|k: int|
                    i <= k < n ==> {
                        let q = (#[trigger] old(self).devices@[k]).work_queue@;
                        &&& q.total_enqueued < usize::MAX
                        &&& q.active_count < usize::MAX
                        &&& q.queue_full_count < usize::MAX
                    },
                forall|k: int|
                    0 <= k < i ==> {
                        let d = #[trigger] self.devices@[k];
                        &&& d.work_queue@ == LockFreeWorkQueue::spec_enqueue(
                            old(self).devices@[k].work_queue@,
                            work@,
                        )
                        &&& d == (SoftwareDevice {
                            work_queue: d.work_queue,
                            ..old(self).devices@[k]
                        })
                    },
            decreases n - i,
        {
            let _submit_result: Result<(), crate::types::DeviceError> = self.devices[i].submit_work(
                arc_clone_work(&shared),
            );
            i = i + 1;
        }
        Ok(())
    }

    /// Drains every result buffered since the last collection: first the
    /// core's own buffer, then each worker's outbox in worker order.  Each
    /// result is collected exactly once.
    pub fn collect_results(&mut self) -> (r: Result<Vec<MiningResult>, CoreError>)
        requires
            old(self).wf(),
        ensures
            final(self).wf(),
            r matches Ok(v) && v@ == old(self).collected_results@ + devs_outboxes(
                old(self).devices@,
                old(self).devices@.len() as int,
            ),
            final(self).collected_results@.len() == 0,
            final(self).devices@.len() == old(self).devices@.len(),
            forall|i: int|
                0 <= i < final(self).devices@.len() ==> {
                    let d = #[trigger] final(self).devices@[i];
                    &&& d.outbox@.len() == 0
                    &&& d == (SoftwareDevice { outbox: d.outbox, ..old(self).devices@[i] })
                },
    {
        let mut out: Vec<MiningResult> = Vec::new();
        core::mem::swap(&mut out, &mut self.collected_results);
        let n: usize = self.devices.len();
        let mut i: usize = 0;
        proof {
            assert(out@ =~= old(self).collected_results@ + devs_outboxes(old(self).devices@, 0));
        }
        while i < n
            invariant
                i <= n,
                n == self.devices@.len(),
                self.wf(),
                self.collected_results@.len() == 0,
                out@ == old(self).collected_results@ + devs_outboxes(old(self).devices@, i as int),
                *self == (SoftwareMiningCore {
                    devices: self.devices,
                    collected_results: self.collected_results,
                    ..*old(self)
                }),
                forall|k: int|
                    i <= k < n ==> #[trigger] self.devices@[k] == old(self).devices@[k],
                forall|k: int|
                    0 <= k < i ==> {
                        let d = #[trigger] self.devices@[k];
                        &&& d.outbox@.len() == 0
                        &&& d == (SoftwareDevice { outbox: d.outbox, ..old(self).devices@[k] })
                    },
            decreases n - i,
        {
            let mut taken: Vec<MiningResult> = Vec::new();
            core::mem::swap(&mut self.devices[i].outbox, &mut taken);
            out.append(&mut taken);
            proof {
                assert(devs_outboxes(old(self).devices@, i + 1) == devs_outboxes(
                    old(self).devices@,
                    i as int,
                ) + old(self).devices@[i as int].outbox@);
                assert(out@ =~= old(self).collected_results@ + devs_outboxes(
                    old(self).devices@,
                    i + 1,
                ));
            }
            i = i + 1;
        }
        Ok(out)
    }

    /// Recomputes the core's totals as of the given instant, from the
    /// workers' raw counters alone: the counts are summed exactly (capped at
    /// the integer bound), the aggregate current throughput is the sum of
    /// the workers' elapsed-time throughputs, and the core-level average
    /// comes from the summed raw hash total over the core's own elapsed
    /// time — never from averaging per-worker averages.
    pub fn update_stats_at(&mut self, now: u64) -> (r: Result<(), CoreError>)
        requires
            old(self).wf(),
        ensures
            final(self).wf(),
            r is Ok,
            final(self).devices == old(self).devices,
            *final(self) == (SoftwareMiningCore { stats: final(self).stats, ..*old(self) }),
            ({
                let devs = old(self).devices@;
                let n = devs.len() as int;
                let core_start = match old(self).start_time_nanos {
                    Some(t) => t,
                    None => now,
                };
                let summed_hashes = crate::stats::sat_u64(devs_sum_hashes(devs, n)) as u64;
                &&& final(self).stats.accepted_work as int == crate::stats::sat_u64(
                    devs_sum_accepted(devs, n),
                )
                &&& final(self).stats.rejected_work as int == crate::stats::sat_u64(
                    devs_sum_rejected(devs, n),
                )
                &&& final(self).stats.hardware_errors as int == crate::stats::sat_u64(
                    devs_sum_errors(devs, n),
                )
                &&& final(self).stats.device_count == devs.len()
                &&& final(self).stats.active_devices == devs.len()
                &&& final(self).stats.total_hashrate as int == crate::stats::sat_u64(
                    devs_sum_rates(devs, now, n),
                )
                &&& final(self).stats.average_hashrate as int == crate::stats::sat_u64(
                    crate::stats::spec_rate(summed_hashes, core_start, now),
                )
                &&& final(self).stats.name == old(self).stats.name
            }),
    {
        let n: usize = self.devices.len();
        let mut total_accepted: u128 = 0;
        let mut total_rejected: u128 = 0;
        let mut total_errors: u128 = 0;
        let mut total_hashes: u128 = 0;
        let mut total_rate: u128 = 0;
        let mut i: usize = 0;
        while i < n
            invariant
                i <= n,
                n == self.devices@.len(),
                self.wf(),
                total_accepted == devs_sum_accepted(self.devices@, i as int),
                total_rejected == devs_sum_rejected(self.devices@, i as int),
                total_errors == devs_sum_errors(self.devices@, i as int),
                total_hashes == devs_sum_hashes(self.devices@, i as int),
                total_rate == devs_sum_rates(self.devices@, now, i as int),
                total_accepted <= i * (u64::MAX as int),
                total_rejected <= i * (u64::MAX as int),
                total_errors <= i * (u64::MAX as int),
                total_hashes <= i * (u64::MAX as int),
                total_rate <= i * (u64::MAX as int),
                *self == *old(self),
            decreases n - i,
        {
            proof {
                assert((i + 1) * (u64::MAX as int) == i * (u64::MAX as int) + u64::MAX as int)
                    by (nonlinear_arith);
                assert(n * (u64::MAX as int) < u128::MAX as int) by (nonlinear_arith)
                    requires
                        n <= usize::MAX,
                ;
                assert(i * (u64::MAX as int) <= n * (u64::MAX as int)) by (nonlinear_arith)
                    requires
                        0 <= i <= n,
                ;
            }
            let d: &crate::stats::AtomicStats = &self.devices[i].atomic_stats;
            total_accepted = total_accepted + d.accepted_work as u128;
            total_rejected = total_rejected + d.rejected_work as u128;
            total_errors = total_errors + d.hardware_errors as u128;
            total_hashes = total_hashes + d.total_hashes as u128;
            let rate: u64 = if now > d.start_time_nanos {
                let elapsed: u64 = now - d.start_time_nanos;
                let wide: u128 = (d.total_hashes as u128) * 1_000_000_000u128 / (elapsed as u128);
                if wide > u64::MAX as u128 {
                    u64::MAX
                } else {
                    wide as u64
                }
            } else {
                0
            };
            proof {
                assert(rate as int == crate::stats::device_rate(
                    self.devices@[i as int].atomic_stats,
                    now,
                ));
            }
            total_rate = total_rate + rate as u128;
            i = i + 1;
        }

        let core_start: u64 = match self.start_time_nanos {
            Some(t) => t,
            None => now,
        };
        let hashes_capped: u64 = if total_hashes > u64::MAX as u128 {
            u64::MAX
        } else {
            total_hashes as u64
        };
        let average: u64 = if now > core_start {
            let elapsed: u64 = now - core_start;
            let wide: u128 = (hashes_capped as u128) * 1_000_000_000u128 / (elapsed as u128);
            if wide > u64::MAX as u128 {
                u64::MAX
            } else {
                wide as u64
            }
        } else {
            0
        };

        self.stats.device_count = self.devices.len() as u32;
        self.stats.active_devices = self.devices.len() as u32;
        self.stats.total_hashrate = if total_rate > u64::MAX as u128 {
            u64::MAX
        } else {
            total_rate as u64
        };
        self.stats.average_hashrate = average;
        self.stats.accepted_work = if total_accepted > u64::MAX as u128 {
            u64::MAX
        } else {
            total_accepted as u64
        };
        self.stats.rejected_work = if total_rejected > u64::MAX as u128 {
            u64::MAX
        } else {
            total_rejected as u64
        };
        self.stats.hardware_errors = if total_errors > u64::MAX as u128 {
            u64::MAX
        } else {
            total_errors as u64
        };
        if now >= core_start {
            self.stats.uptime_nanos = now - core_start;
        }
        self.stats.last_updated_nanos = now;
        Ok(())
    }

    /// Recomputes the core's totals as of now.
    pub fn update_stats(&mut self) -> (r: Result<(), CoreError>)
        requires
            old(self).wf(),
        ensures
            final(self).wf(),
            r is Ok,
            final(self).devices == old(self).devices,
            *final(self) == (SoftwareMiningCore { stats: final(self).stats, ..*old(self) }),
            ({
                let devs = old(self).devices@;
                let n = devs.len() as int;
                &&& final(self).stats.accepted_work as int == crate::stats::sat_u64(
                    devs_sum_accepted(devs, n),
                )
                &&& final(self).stats.rejected_work as int == crate::stats::sat_u64(
                    devs_sum_rejected(devs, n),
                )
                &&& final(self).stats.hardware_errors as int == crate::stats::sat_u64(
                    devs_sum_errors(devs, n),
                )
                &&& final(self).stats.device_count == devs.len()
                &&& final(self).stats.active_devices == devs.len()
            }),
            exists|now: u64|
                final(self).stats.total_hashrate as int == crate::stats::sat_u64(
                    #[trigger] devs_sum_rates(
                        old(self).devices@,
                        now,
                        old(self).devices@.len() as int,
                    ),
                ),
    {
        let now: u64 = now_nanos();
        let r: Result<(), CoreError> = self.update_stats_at(now);
        r
    }

    /// Recomputes and reports the core's totals: exact counter sums, the
    /// summed per-worker throughputs as the current figure and the raw-total
    /// average over the core's elapsed time.
    pub fn get_stats(&mut self) -> (r: Result<CoreStats, CoreError>)
        requires
            old(self).wf(),
        ensures
            final(self).wf(),
            r matches Ok(s) && {
                let devs = old(self).devices@;
                let n = devs.len() as int;
                &&& s.accepted_work as int == crate::stats::sat_u64(devs_sum_accepted(devs, n))
                &&& s.rejected_work as int == crate::stats::sat_u64(devs_sum_rejected(devs, n))
                &&& s.hardware_errors as int == crate::stats::sat_u64(devs_sum_errors(devs, n))
                &&& s.device_count == devs.len()
            },
            r matches Ok(s) && (exists|now: u64|
                s.total_hashrate as int == crate::stats::sat_u64(
                    #[trigger] devs_sum_rates(
                        old(self).devices@,
                        now,
                        old(self).devices@.len() as int,
                    ),
                )),
    {
        let _update_result: Result<(), CoreError> = self.update_stats();
        Ok(
            CoreStats {
                name: self.stats.name.clone(),
                device_count: self.stats.device_count,
                active_devices: self.stats.active_devices,
                total_hashrate: self.stats.total_hashrate,
                average_hashrate: self.stats.average_hashrate,
                accepted_work: self.stats.accepted_work,
                rejected_work: self.stats.rejected_work,
                hardware_errors: self.stats.hardware_errors,
                uptime_nanos: self.stats.uptime_nanos,
                last_updated_nanos: self.stats.last_updated_nanos,
            },
        )
    }

    /// Reports healthy while at least half the workers do: the core
    /// degrades gracefully instead of failing as a whole.
    pub fn health_check(&self) -> (r: Result<bool, CoreError>)
        requires
            self.wf(),
        ensures
            r matches Ok(h) && h == (devs_count_healthy(self.devices@, self.devices@.len() as int)
                >= (self.devices@.len() + 1) as int / 2),
    {
        let n: usize = self.devices.len();
        let mut healthy: usize = 0;
        let mut i: usize = 0;
        while i < n
            invariant
                i <= n,
                n == self.devices@.len(),
                n <= MAX_DEVICE_COUNT,
                healthy == devs_count_healthy(self.devices@, i as int),
                healthy <= i,
            decreases n - i,
        {
            let device_health: Result<bool, crate::types::DeviceError> = self.devices[
                i
            ].health_check();
            match device_health {
                Ok(true) => {
                    healthy = healthy + 1;
                },
                _ => {},
            }
            i = i + 1;
        }
        let threshold: usize = (n + 1) / 2;
        Ok(healthy >= threshold)
    }

    /// Describes the workers: the ones already created, or the ones the
    /// held configuration would create, capped at the machine's processor
    /// count.
    pub fn scan_devices(&self) -> (r: Result<Vec<DeviceInfo>, CoreError>)
        requires
            self.wf(),
        ensures
            r matches Ok(v) && {
                &&& self.devices@.len() > 0 ==> v@.len() == self.devices@.len()
                &&& self.devices@.len() > 0 ==> (forall|i: int|
                    0 <= i < v@.len() ==> (#[trigger] v@[i]).id == self.devices@[i].device_info.id)
                &&& self.devices@.len() == 0 ==> v@.len() >= 1
            },
    {
        let n: usize = self.devices.len();
        if n > 0 {
            let mut infos: Vec<DeviceInfo> = Vec::new();
            let mut i: usize = 0;
            while i < n
                invariant
                    i <= n,
                    n == self.devices@.len(),
                    infos@.len() == i,
                    forall|k: int|
                        0 <= k < i ==> (#[trigger] infos@[k]).id
                            == self.devices@[k].device_info.id,
                decreases n - i,
            {
                let d: &SoftwareDevice = &self.devices[i];
                infos.push(
                    DeviceInfo {
                        id: d.device_info.id,
                        name: d.device_info.name.clone(),
                        device_type: d.device_info.device_type.clone(),
                        chain_id: d.device_info.chain_id,
                        temperature_centi: d.device_info.temperature_centi,
                        fan_speed: d.device_info.fan_speed,
                        updated_at_nanos: d.device_info.updated_at_nanos,
                    },
                );
                i = i + 1;
            }
            return Ok(infos);
        }

        let requested: u32 = self.get_device_count_from_config();
        let cpu_cores: u32 = cpu_count_u32(num_cpus::get());
        let count: u32 = if requested > cpu_cores && cpu_cores >= 1 {
            cpu_cores
        } else {
            requested
        };
        let mut infos: Vec<DeviceInfo> = Vec::new();
        let mut i: u32 = 0;
        while i < count
            invariant
                i <= count,
                1 <= count <= MAX_DEVICE_COUNT,
                infos@.len() == i,
            decreases count - i,
        {
            infos.push(
                DeviceInfo::new(
                    DEVICE_ID_BASE + i,
                    "software worker".to_owned(),
                    "software".to_owned(),
                    (i % 256) as u8,
                ),
            );
            i = i + 1;
        }
        Ok(infos)
    }

    /// Builds one extra worker from the held configuration's stock values:
    /// its slice of nothing but the configured upper throughput, the
    /// configured error rate and batch hint.
    pub fn create_device(&self, device_info: DeviceInfo) -> (r: Result<SoftwareDevice, CoreError>)
        ensures
            r matches Ok(d) && {
                &&& d.wf()
                &&& d.device_info == device_info
                &&& d.status is Uninitialized
            },
    {
        let target_hashrate: u64 = match &self.config {
            Some(c) => match c.max_hashrate {
                Some(m) => m,
                None => 2_000_000_000,
            },
            None => 2_000_000_000,
        };
        let error_rate_ppm: u32 = match &self.config {
            Some(c) => match c.error_rate_ppm {
                Some(e) => {
                    if e > ERROR_RATE_SCALE {
                        ERROR_RATE_SCALE
                    } else {
                        e
                    }
                },
                None => 10_000,
            },
            None => 10_000,
        };
        let batch_size: u32 = match &self.config {
            Some(c) => match c.batch_size {
                Some(b) => {
                    if b > u32::MAX as u64 {
                        u32::MAX
                    } else {
                        b as u32
                    }
                },
                None => 1000,
            },
            None => 1000,
        };
        match SoftwareDevice::new(
            device_info,
            DeviceConfig::default(),
            target_hashrate,
            error_rate_ppm,
            batch_size,
        ) {
            Ok(device) => Ok(device),
            Err(e) => Err(CoreError::Device(e)),
        }
    }

    /// Handing the whole worker collection out is not offered: workers stay
    /// owned by the core.
    pub fn get_devices(&self) -> (r: Result<Vec<SoftwareDevice>, CoreError>)
        ensures
            r is Err,
    {
        Err(CoreError::Runtime("the workers stay owned by the core".to_owned()))
    }

    /// Stops the core and lets go of every worker.
    pub fn shutdown(&mut self) -> (r: Result<(), CoreError>)
        requires
            old(self).wf(),
        ensures
            final(self).wf(),
            r is Ok,
            !final(self).running,
            final(self).devices@.len() == 0,
    {
        let _stop_result: Result<(), CoreError> = self.stop();
        self.devices.clear();
        Ok(())
    }

    /// The configured lower throughput bound, or its stock value.
    pub open spec fn spec_min_rate(&self, c: CoreConfig) -> int {
        match c.min_hashrate {
            Some(m) => m as int,
            None => 30_000_000,
        }
    }

    /// The configured upper throughput bound, or its stock value.
    pub open spec fn spec_max_rate(&self, c: CoreConfig) -> int {
        match c.max_hashrate {
            Some(m) => m as int,
            None => 40_000_000,
        }
    }

    /// The configured error-injection rate, or its stock value.
    pub open spec fn spec_error_rate(&self, c: CoreConfig) -> u32 {
        match c.error_rate_ppm {
            Some(e) => e,
            None => 10_000u32,
        }
    }
}

/// Clamps a processor count into a worker-id-sized number.
fn cpu_count_u32(count: usize) -> (r: u32)
    ensures
        count <= u32::MAX ==> r == count,
        r >= 1 || count == 0,
{
    if count > u32::MAX as usize {
        u32::MAX
    } else {
        count as u32
    }
}

/// Hands out another handle to a shared job.
fn arc_clone_work(a: &Arc<Work>) -> (r: Arc<Work>)
    ensures
        r == *a,
{
    crate::queue::arc_clone(a)
}

/// Copies a worker configuration field by field.
fn clone_device_config(c: &DeviceConfig) -> (r: DeviceConfig)
    ensures
        r == *c,
{
    DeviceConfig {
        chain_id: c.chain_id,
        enabled: c.enabled,
        frequency: c.frequency,
        voltage: c.voltage,
        auto_tune: c.auto_tune,
        chip_count: c.chip_count,
        temperature_limit_centi: c.temperature_limit_centi,
        fan_speed: c.fan_speed,
    }
}

} // verus!
