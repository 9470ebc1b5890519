//! The wide-machine variant of the core: processor-topology awareness, a
//! vector-extension level and the stricter configuration checks that come
//! with it.

use vstd::prelude::*;

use crate::clock::now_nanos;
use crate::device::{SoftwareDevice, ERROR_RATE_SCALE};
use crate::types::{
    CoreCapabilities, CoreConfig, CoreError, CoreInfo, CoreStats, CoreType, CpuCacheInfo,
    CpuSpecificCapabilities, DeviceConfig, DeviceInfo, FanCapabilities, FrequencyCapabilities,
    TemperatureCapabilities, VoltageCapabilities,
};
use crate::work::{MiningResult, Work};

verus! {

/// Most workers the wide-machine core will run.
pub const OPTIMIZED_MAX_DEVICE_COUNT: u64 = 256;

/// Largest accepted batch-size hint for the wide-machine core.
pub const OPTIMIZED_MAX_BATCH_SIZE: u64 = 100_000;

/// Vector-extension level of the processor, as probed by the host.
#[derive(Debug, Clone, Copy, PartialEq, Eq, Structural)]
pub enum SimdSupport {
    Scalar,
    Sse2,
    Sse41,
    Avx,
    Avx2,
    Avx512,
}

/// Broad performance posture of the core.
#[derive(Debug, Clone, Copy, PartialEq, Eq, Structural)]
pub enum PerformanceMode {
    MaxPerformance,
    Balanced,
    PowerSave,
}

/// How work is spread over the workers.
#[derive(Debug, Clone, Copy, PartialEq, Eq, Structural)]
pub enum WorkDistributionStrategy {
    RoundRobin,
    LoadBased,
    PerformanceBased,
    Adaptive,
}

/// Processor layout the core tunes itself to.
#[derive(Debug, Clone)]
pub struct CpuTopology {
    pub physical_cores: u32,
    pub logical_cores: u32,
    pub cache_l1_size: u32,
    pub cache_l2_size: u32,
    pub cache_l3_size: u32,
    pub numa_nodes: u32,
}

/// How often each vector path was taken.
#[derive(Debug, Clone)]
pub struct SimdInstructionStats {
    pub avx512_usage: u64,
    pub avx2_usage: u64,
    pub avx_usage: u64,
    pub sse_usage: u64,
    pub scalar_usage: u64,
}

/// Chooses batch shapes for the vector engine.
pub struct BatchOptimizer;

impl BatchOptimizer {
    /// A fresh batch optimizer.
    pub fn new() -> (r: BatchOptimizer)
        ensures
            true,
    {
        BatchOptimizer
    }
}

/// Counts what the vector engine did.
pub struct PerformanceCounters;

impl PerformanceCounters {
    /// Fresh counters.
    pub fn new() -> (r: PerformanceCounters)
        ensures
            true,
    {
        PerformanceCounters
    }
}

/// The digest engine tuned to one vector-extension level.
pub struct SimdAlgorithmEngine {
    pub simd_level: SimdSupport,
    pub batch_optimizer: BatchOptimizer,
    pub performance_counters: PerformanceCounters,
}

impl SimdAlgorithmEngine {
    /// An engine for the given vector-extension level.
    pub fn new(simd_support: &SimdSupport) -> (r: SimdAlgorithmEngine)
        ensures
            r.simd_level == *simd_support,
    {
        SimdAlgorithmEngine {
            simd_level: *simd_support,
            batch_optimizer: BatchOptimizer::new(),
            performance_counters: PerformanceCounters::new(),
        }
    }
}

/// Processor book-keeping: the topology and the probed vector level.
pub struct CpuManager {
    pub topology: CpuTopology,
    pub simd_support: SimdSupport,
}

impl CpuManager {
    /// Reads the processor counts and takes the vector level the host
    /// probed; cache sizes use stock figures.
    pub fn new(simd_support: SimdSupport) -> (r: CpuManager)
        ensures
            r.simd_support == simd_support,
            r.topology.physical_cores >= 1 || r.topology.physical_cores == u32::MAX,
            r.topology.logical_cores >= 1 || r.topology.logical_cores == u32::MAX,
    {
        let physical: usize = num_cpus::get_physical();
        let logical: usize = num_cpus::get();
        let topology: CpuTopology = CpuTopology {
            physical_cores: if physical > u32::MAX as usize {
                u32::MAX
            } else {
                physical as u32
            },
            logical_cores: if logical > u32::MAX as usize {
                u32::MAX
            } else {
                logical as u32
            },
            cache_l1_size: 32 * 1024,
            cache_l2_size: 256 * 1024,
            cache_l3_size: 8 * 1024 * 1024,
            numa_nodes: 1,
        };
        CpuManager { topology, simd_support }
    }
}

/// Most concurrent workers each vector level carries well.
pub open spec fn spec_max_devices_for(simd: SimdSupport) -> u32 {
    match simd {
        SimdSupport::Avx512 => 128u32,
        SimdSupport::Avx2 => 64u32,
        SimdSupport::Avx => 32u32,
        _ => 16u32,
    }
}

/// Derives what the core can do from the processor book-keeping: richer
/// vector levels allow self-tuning and more concurrent workers; temperature
/// can be watched but not steered, and voltage, frequency and fans not at
/// all.
pub fn detect_capabilities(cpu_manager: &CpuManager) -> (r: CoreCapabilities)
    ensures
        r.max_devices == Some(spec_max_devices_for(cpu_manager.simd_support)),
        r.supports_auto_tuning == (cpu_manager.simd_support is Avx512 || cpu_manager.simd_support
            is Avx2),
        r.temperature_capabilities.supports_monitoring,
        !r.temperature_capabilities.supports_control,
        !r.voltage_capabilities.supports_control,
        !r.frequency_capabilities.supports_control,
        !r.fan_capabilities.supports_control,
        r.supports_multiple_chains,
        r.cpu_capabilities matches Some(c) && {
            &&& c.supports_cpu_affinity
            &&& c.supports_numa_awareness == (cpu_manager.topology.numa_nodes > 1)
            &&& c.physical_cores == cpu_manager.topology.physical_cores
            &&& c.logical_cores == cpu_manager.topology.logical_cores
        },
{
    let supports_auto_tuning: bool;
    let max_devices: u32;
    match cpu_manager.simd_support {
        SimdSupport::Avx512 => {
            supports_auto_tuning = true;
            max_devices = 128;
        },
        SimdSupport::Avx2 => {
            supports_auto_tuning = true;
            max_devices = 64;
        },
        SimdSupport::Avx => {
            supports_auto_tuning = false;
            max_devices = 32;
        },
        _ => {
            supports_auto_tuning = false;
            max_devices = 16;
        },
    }
    CoreCapabilities {
        supports_auto_tuning,
        temperature_capabilities: TemperatureCapabilities {
            supports_monitoring: true,
            supports_control: false,
            supports_threshold_alerts: true,
            monitoring_precision_centi: Some(100),
        },
        voltage_capabilities: VoltageCapabilities {
            supports_monitoring: false,
            supports_control: false,
            control_range: None,
        },
        frequency_capabilities: FrequencyCapabilities {
            supports_monitoring: false,
            supports_control: false,
            control_range: None,
        },
        fan_capabilities: FanCapabilities {
            supports_monitoring: false,
            supports_control: false,
            fan_count: None,
        },
        supports_multiple_chains: true,
        max_devices: Some(max_devices),
        supported_algorithms: Vec::new(),
        cpu_capabilities: Some(
            CpuSpecificCapabilities {
                simd_support: Vec::new(),
                supports_cpu_affinity: true,
                supports_numa_awareness: cpu_manager.topology.numa_nodes > 1,
                physical_cores: cpu_manager.topology.physical_cores,
                logical_cores: cpu_manager.topology.logical_cores,
                cache_info: Some(
                    CpuCacheInfo {
                        l1_data_kb: cpu_manager.topology.cache_l1_size / 1024,
                        l1_instruction_kb: cpu_manager.topology.cache_l1_size / 1024,
                        l2_kb: cpu_manager.topology.cache_l2_size / 1024,
                        l3_kb: cpu_manager.topology.cache_l3_size / 1024,
                    },
                ),
            },
        ),
        core_type: CoreType::Custom("optimized_cpu".to_owned()),
    }
}

/// Spreads work over workers; the adaptive policy is reserved for a future
/// feedback loop and rebalancing changes nothing yet.
pub struct LoadBalancer {
    pub distribution_strategy: WorkDistributionStrategy,
    /// Recent load figures in per-mille of capacity.
    pub load_history: Vec<u64>,
}

impl LoadBalancer {
    /// A balancer with the adaptive policy and no history yet.
    pub fn new() -> (r: LoadBalancer)
        ensures
            r.distribution_strategy is Adaptive,
            r.load_history@.len() == 0,
    {
        LoadBalancer {
            distribution_strategy: WorkDistributionStrategy::Adaptive,
            load_history: Vec::new(),
        }
    }

    /// Re-spreads the load.  The current policy set changes nothing; the
    /// slot exists for a feedback-driven policy.
    pub fn rebalance(&mut self) -> (r: Result<(), CoreError>)
        ensures
            r is Ok,
            *final(self) == *old(self),
    {
        Ok(())
    }
}

/// Whether a configuration passes the wide-machine core's checks: a name is
/// present, every listed worker has a working clock, temperature ceiling and
/// chip count, any worker count stays within this core's bound, any
/// throughput bounds are positive, and any batch-size hint is positive and
/// within this core's bound.
pub open spec fn spec_optimized_config_valid(c: CoreConfig) -> bool {
    &&& c.name@.len() > 0
    &&& (forall|i: int|
        0 <= i < c.devices@.len() ==> {
            let d = #[trigger] c.devices@[i];
            &&& d.frequency > 0
            &&& d.temperature_limit_centi > 0
            &&& d.chip_count > 0
        })
    &&& (c.device_count matches Some(n) ==> 1 <= n <= OPTIMIZED_MAX_DEVICE_COUNT)
    &&& (c.min_hashrate matches Some(m) ==> m > 0)
    &&& (c.max_hashrate matches Some(m) ==> m > 0)
    &&& (c.batch_size matches Some(b) ==> 1 <= b <= OPTIMIZED_MAX_BATCH_SIZE)
    &&& (c.error_rate_ppm matches Some(e) ==> e <= ERROR_RATE_SCALE)
}

/// Builds wide-machine cores after checking their configuration strictly.
pub struct OptimizedCpuCoreFactory {
    pub core_info: CoreInfo,
}

impl OptimizedCpuCoreFactory {
    /// A factory describing the wide-machine core.
    pub fn new() -> (r: OptimizedCpuCoreFactory)
        ensures
            r.core_info.core_type matches CoreType::Custom(t) && t@ == "optimized_cpu"@,
    {
        let core_info: CoreInfo = CoreInfo::new(
            "Optimized CPU Mining Core".to_owned(),
            CoreType::Custom("optimized_cpu".to_owned()),
            crate::VERSION.to_owned(),
            "wide-machine compute core with vector-extension awareness".to_owned(),
            "CGMiner Rust Team".to_owned(),
            Vec::new(),
        );
        OptimizedCpuCoreFactory { core_info }
    }

    /// The family of cores this factory builds.
    pub fn core_type(&self) -> (r: CoreType)
        ensures
            r matches CoreType::Custom(t) && t@ == "optimized_cpu"@,
    {
        CoreType::Custom("optimized_cpu".to_owned())
    }

    /// Checks a configuration against the wide-machine core's rules.
    pub fn validate_config(&self, config: &CoreConfig) -> (r: Result<(), CoreError>)
        ensures
            r is Ok <==> spec_optimized_config_valid(*config),
    {
        if config.name.as_str().is_empty() {
            return Err(CoreError::Config("the core needs a non-empty name".to_owned()));
        }
        let n: usize = config.devices.len();
        let mut i: usize = 0;
        while i < n
            invariant
                i <= n,
                n == config.devices@.len(),
                forall|k: int|
                    0 <= k < i ==> {
                        let d = #[trigger] config.devices@[k];
                        &&& d.frequency > 0
                        &&& d.temperature_limit_centi > 0
                        &&& d.chip_count > 0
                    },
            decreases n - i,
        {
            let d: &DeviceConfig = &config.devices[i];
            if d.frequency == 0 {
                return Err(
                    CoreError::Config("a worker's clock setting must not be zero".to_owned()),
                );
            }
            if d.temperature_limit_centi == 0 {
                return Err(
                    CoreError::Config(
                        "a worker's temperature ceiling must be positive".to_owned(),
                    ),
                );
            }
            if d.chip_count == 0 {
                return Err(
                    CoreError::Config("a worker's chip count must not be zero".to_owned()),
                );
            }
            i = i + 1;
        }
        if let Some(count) = config.device_count {
            if count == 0 {
                return Err(CoreError::Config("the worker count must not be zero".to_owned()));
            }
            if count > OPTIMIZED_MAX_DEVICE_COUNT {
                return Err(CoreError::Config("the worker count is over the bound".to_owned()));
            }
        }
        if let Some(min_rate) = config.min_hashrate {
            if min_rate == 0 {
                return Err(
                    CoreError::Config("the lower throughput bound must be positive".to_owned()),
                );
            }
        }
        if let Some(max_rate) = config.max_hashrate {
            if max_rate == 0 {
                return Err(
                    CoreError::Config("the upper throughput bound must be positive".to_owned()),
                );
            }
        }
        if let Some(batch) = config.batch_size {
            if batch == 0 {
                return Err(CoreError::Config("the batch size must not be zero".to_owned()));
            }
            if batch > OPTIMIZED_MAX_BATCH_SIZE {
                return Err(CoreError::Config("the batch size is over the bound".to_owned()));
            }
        }
        if let Some(error_rate) = config.error_rate_ppm {
            if error_rate > ERROR_RATE_SCALE {
                return Err(
                    CoreError::Config(
                        "the error-injection rate must be a proper fraction".to_owned(),
                    ),
                );
            }
        }
        Ok(())
    }

    /// The stock wide-machine configuration: eight workers over a five-to-
    /// twenty gigahash range, a tenth of a per cent error injection and
    /// twenty-thousand-candidate batches.
    pub fn default_config(&self) -> (c: CoreConfig)
        ensures
            spec_optimized_config_valid(c),
            c.device_count == Some(8u64),
            c.min_hashrate == Some(5_000_000_000u64),
            c.max_hashrate == Some(20_000_000_000u64),
            c.error_rate_ppm == Some(1000u32),
            c.batch_size == Some(20_000u64),
    {
        let mut devices: Vec<DeviceConfig> = Vec::new();
        devices.push(
            DeviceConfig {
                chain_id: 0,
                enabled: true,
                frequency: 800,
                voltage: 1000,
                auto_tune: true,
                chip_count: 1,
                temperature_limit_centi: 8500,
                fan_speed: Some(70),
            },
        );
        let c: CoreConfig = CoreConfig {
            name: "optimized-cpu-core".to_owned(),
            enabled: true,
            devices,
            device_count: Some(8),
            min_hashrate: Some(5_000_000_000),
            max_hashrate: Some(20_000_000_000),
            error_rate_ppm: Some(1000),
            batch_size: Some(20_000),
            work_timeout_ms: Some(1000),
            cpu_affinity_enabled: Some(true),
            cpu_affinity_strategy: Some("intelligent".to_owned()),
        };
        proof {
            reveal_strlit("optimized-cpu-core");
        }
        c
    }
}

impl Default for OptimizedCpuCoreFactory {
    /// A factory describing the wide-machine core.
    fn default() -> (r: OptimizedCpuCoreFactory)
        ensures
            r.core_info.core_type matches CoreType::Custom(t) && t@ == "optimized_cpu"@,
    {
        OptimizedCpuCoreFactory::new()
    }
}

/// Worker ids handed out by the wide-machine core start here.
pub const OPTIMIZED_DEVICE_ID_BASE: u32 = 4000;

/// The wide-machine core: the same worker collection behind the stricter
/// checks and the capability surface derived from the processor.
pub struct OptimizedCpuMiningCore {
    pub core_info: CoreInfo,
    pub capabilities: CoreCapabilities,
    pub config: Option<CoreConfig>,
    pub devices: Vec<SoftwareDevice>,
    pub cpu_manager: CpuManager,
    pub load_balancer: LoadBalancer,
    pub stats: CoreStats,
    pub running: bool,
    pub start_time_nanos: Option<u64>,
}

impl OptimizedCpuMiningCore {
    /// A well-formed core: not more workers than the bound, every worker
    /// intact.
    pub open spec fn wf(&self) -> bool {
        &&& self.devices@.len() <= OPTIMIZED_MAX_DEVICE_COUNT
        &&& (forall|i: int| 0 <= i < self.devices@.len() ==> (#[trigger] self.devices@[i]).wf())
    }

    /// Builds an idle wide-machine core around the vector level the host
    /// probed; its capabilities follow from the processor book-keeping.
    pub fn new(name: String, simd_support: SimdSupport) -> (c: OptimizedCpuMiningCore)
        ensures
            c.wf(),
            c.core_info.name@ == name@,
            c.devices@.len() == 0,
            !c.running,
            c.config is None,
            c.cpu_manager.simd_support == simd_support,
            c.capabilities.max_devices == Some(spec_max_devices_for(simd_support)),
    {
        let info_name: String = name.clone();
        let core_info: CoreInfo = CoreInfo::new(
            info_name,
            CoreType::Custom("optimized_cpu".to_owned()),
            crate::VERSION.to_owned(),
            "wide-machine compute core with vector-extension awareness".to_owned(),
            "CGMiner Rust Team".to_owned(),
            Vec::new(),
        );
        let cpu_manager: CpuManager = CpuManager::new(simd_support);
        let capabilities: CoreCapabilities = detect_capabilities(&cpu_manager);
        OptimizedCpuMiningCore {
            core_info,
            capabilities,
            config: None,
            devices: Vec::new(),
            cpu_manager,
            load_balancer: LoadBalancer::new(),
            stats: CoreStats::new(name),
            running: false,
            start_time_nanos: None,
        }
    }

    /// Descriptive information about the core.
    pub fn get_info(&self) -> (r: &CoreInfo)
        ensures
            *r == self.core_info,
    {
        &self.core_info
    }

    /// What this core can and cannot do.
    pub fn get_capabilities(&self) -> (r: &CoreCapabilities)
        ensures
            *r == self.capabilities,
    {
        &self.capabilities
    }

    /// Checks the configuration options this core insists on: a name, and a
    /// worker count within its bound.
    pub fn validate_config(&self, config: &CoreConfig) -> (r: Result<(), CoreError>)
        ensures
            r is Ok <==> (config.name@.len() > 0 && (config.device_count matches Some(n) ==> 1 <= n
                <= OPTIMIZED_MAX_DEVICE_COUNT)),
    {
        if config.name.as_str().is_empty() {
            return Err(CoreError::Config("the core needs a non-empty name".to_owned()));
        }
        if let Some(count) = config.device_count {
            if count == 0 {
                return Err(CoreError::Config("the worker count must not be zero".to_owned()));
            }
            if count > OPTIMIZED_MAX_DEVICE_COUNT {
                return Err(CoreError::Config("the worker count is over the bound".to_owned()));
            }
        }
        Ok(())
    }

    /// Validates a configuration and creates the workers: one per requested
    /// slot, or one per logical processor when the configuration does not
    /// say, each taking this core's stock throughput and batch settings.
    pub fn initialize(&mut self, config: CoreConfig) -> (r: Result<(), CoreError>)
        requires
            old(self).wf(),
        ensures
            final(self).wf(),
            r is Ok <==> (config.name@.len() > 0 && (config.device_count matches Some(n) ==> 1 <= n
                <= OPTIMIZED_MAX_DEVICE_COUNT)),
            r is Ok ==> {
                &&& final(self).config == Some(config)
                &&& 1 <= final(self).devices@.len() <= OPTIMIZED_MAX_DEVICE_COUNT
                &&& (forall|i: int|
                    0 <= i < final(self).devices@.len() ==> {
                        let d = #[trigger] final(self).devices@[i];
                        &&& d.wf()
                        &&& d.status is Idle
                        &&& d.device_info.id == OPTIMIZED_DEVICE_ID_BASE + i
                    })
            },
    {
        if let Err(e) = self.validate_config(&config) {
            return Err(e);
        }
        let requested: u64 = match config.device_count {
            Some(count) => count,
            None => {
                let logical: u32 = self.cpu_manager.topology.logical_cores;
                if logical == 0 {
                    1
                } else if logical as u64 > OPTIMIZED_MAX_DEVICE_COUNT {
                    OPTIMIZED_MAX_DEVICE_COUNT
                } else {
                    logical as u64
                }
            },
        };
        let error_rate_ppm: u32 = match config.error_rate_ppm {
            Some(e) => {
                if e > ERROR_RATE_SCALE {
                    ERROR_RATE_SCALE
                } else {
                    e
                }
            },
            None => 1000,
        };
        let target_hashrate: u64 = match config.max_hashrate {
            Some(m) => m,
            None => 5_000_000_000,
        };
        let batch_size: u32 = match config.batch_size {
            Some(b) => {
                if b > u32::MAX as u64 {
                    u32::MAX
                } else {
                    b as u32
                }
            },
            None => 20_000,
        };

        let count: u32 = requested as u32;
        let mut devices: Vec<SoftwareDevice> = Vec::new();
        let mut i: u32 = 0;
        while i < count
            invariant
                i <= count,
                1 <= count <= OPTIMIZED_MAX_DEVICE_COUNT,
                devices@.len() == i,
                error_rate_ppm <= ERROR_RATE_SCALE,
                forall|k: int|
                    0 <= k < devices@.len() ==> {
                        let d = #[trigger] devices@[k];
                        &&& d.wf()
                        &&& d.status is Idle
                        &&& d.device_info.id == OPTIMIZED_DEVICE_ID_BASE + k
                    },
            decreases count - i,
        {
            let device_info: DeviceInfo = DeviceInfo::new(
                OPTIMIZED_DEVICE_ID_BASE + i,
                "optimized worker".to_owned(),
                "optimized_cpu".to_owned(),
                (i % 256) as u8,
            );
            match SoftwareDevice::new(
                device_info,
                DeviceConfig::default(),
                target_hashrate,
                error_rate_ppm,
                batch_size,
            ) {
                Ok(mut device) => {
                    let _init_result: Result<(), crate::types::DeviceError> = device.initialize(
                        DeviceConfig::default(),
                    );
                    devices.push(device);
                },
                Err(e) => {
                    return Err(CoreError::Device(e));
                },
            }
            i = i + 1;
        }
        self.devices = devices;
        self.config = Some(config);
        Ok(())
    }

    /// Starts every worker and marks the core running; a running core
    /// refuses to start twice.
    pub fn start(&mut self) -> (r: Result<(), CoreError>)
        requires
            old(self).wf(),
        ensures
            final(self).wf(),
            r is Ok <==> !old(self).running,
            r is Ok ==> final(self).running,
    {
        if self.running {
            return Err(CoreError::Runtime("the core is already running".to_owned()));
        }
        let n: usize = self.devices.len();
        let mut i: usize = 0;
        while i < n
            invariant
                i <= n,
                n == self.devices@.len(),
                self.wf(),
                !self.running,
            decreases n - i,
        {
            let _start_result: Result<(), crate::types::DeviceError> = self.devices[i].start();
            i = i + 1;
        }
        self.running = true;
        self.start_time_nanos = Some(now_nanos());
        Ok(())
    }

    /// Stops every worker and marks the core stopped.
    pub fn stop(&mut self) -> (r: Result<(), CoreError>)
        requires
            old(self).wf(),
        ensures
            final(self).wf(),
            r is Ok,
            !final(self).running,
    {
        self.running = false;
        let n: usize = self.devices.len();
        let mut i: usize = 0;
        while i < n
            invariant
                i <= n,
                n == self.devices@.len(),
                self.wf(),
                !self.running,
            decreases n - i,
        {
            let _stop_result: Result<(), crate::types::DeviceError> = self.devices[i].stop();
            i = i + 1;
        }
        Ok(())
    }

    /// Stops and starts the core again.
    pub fn restart(&mut self) -> (r: Result<(), CoreError>)
        requires
            old(self).wf(),
        ensures
            final(self).wf(),
            r is Ok,
            final(self).running,
    {
        let _stop_result: Result<(), CoreError> = self.stop();
        self.start()
    }

    /// How many workers the core holds.
    pub fn device_count(&self) -> (r: Result<u32, CoreError>)
        requires
            self.wf(),
        ensures
            r matches Ok(n) && n == self.devices@.len(),
    {
        Ok(self.devices.len() as u32)
    }

    /// Fans one job out to every worker's queue.
    pub fn submit_work(&mut self, work: Work) -> (r: Result<(), CoreError>)
        requires
            old(self).wf(),
            forall|i: int|
                0 <= i < old(self).devices@.len() ==> {
                    let q = (#[trigger] old(self).devices@[i]).work_queue@;
                    &&& q.total_enqueued < usize::MAX
                    &&& q.active_count < usize::MAX
                    &&& q.queue_full_count < usize::MAX
                },
        ensures
            final(self).wf(),
            r is Ok,
            final(self).devices@.len() == old(self).devices@.len(),
            forall|i: int|
                0 <= i < final(self).devices@.len() ==> {
                    let d = #[trigger] final(self).devices@[i];
                    &&& d.work_queue@ == crate::queue::LockFreeWorkQueue::spec_enqueue(
                        old(self).devices@[i].work_queue@,
                        work@,
                    )
                    &&& d == (SoftwareDevice { work_queue: d.work_queue, ..old(self).devices@[i] })
                },
            *final(self) == (OptimizedCpuMiningCore { devices: final(self).devices, ..*old(self) }),
    {
        let shared: std::sync::Arc<Work> = std::sync::Arc::new(work);
        let n: usize = self.devices.len();
        let mut i: usize = 0;
        while i < n
            invariant
                i <= n,
                n == self.devices@.len(),
                self.wf(),
                shared@ == work@,
                *self == (OptimizedCpuMiningCore { devices: self.devices, ..*old(self) }),
                forall|k: int|
                    i <= k < n ==> #[trigger] self.devices@[k] == old(self).devices@[k],
                forall|k: int|
                    i <= k < n ==> {
                        let q = (#[trigger] old(self).devices@[k]).work_queue@;
                        &&& q.total_enqueued < usize::MAX
                        &&& q.active_count < usize::MAX
                        &&& q.queue_full_count < usize::MAX
                    },
                forall|k: int|
                    0 <= k < i ==> {
                        let d = #[trigger] self.devices@[k];
                        &&& d.work_queue@ == crate::queue::LockFreeWorkQueue::spec_enqueue(
                            old(self).devices@[k].work_queue@,
                            work@,
                        )
                        &&& d == (SoftwareDevice {
                            work_queue: d.work_queue,
                            ..old(self).devices@[k]
                        })
                    },
            decreases n - i,
        {
            let _submit_result: Result<(), crate::types::DeviceError> = self.devices[i].submit_work(
                crate::queue::arc_clone(&shared),
            );
            i = i + 1;
        }
        Ok(())
    }

    /// Drains every result the workers buffered since the last collection:
    /// each worker's outbox is emptied into the returned vector, in worker
    /// order, so every result is collected exactly once.
    pub fn collect_results(&mut self) -> (r: Result<Vec<MiningResult>, CoreError>)
        requires
            old(self).wf(),
        ensures
            final(self).wf(),
            r matches Ok(v) && v@ == crate::mining_core::devs_outboxes(
                old(self).devices@,
                old(self).devices@.len() as int,
            ),
            final(self).devices@.len() == old(self).devices@.len(),
            forall|i: int|
                0 <= i < final(self).devices@.len() ==> {
                    let d = #[trigger] final(self).devices@[i];
                    &&& d.outbox@.len() == 0
                    &&& d == (SoftwareDevice { outbox: d.outbox, ..old(self).devices@[i] })
                },
            *final(self) == (OptimizedCpuMiningCore { devices: final(self).devices, ..*old(self) }),
    {
        let mut out: Vec<MiningResult> = Vec::new();
        let n: usize = self.devices.len();
        let mut i: usize = 0;
        proof {
            assert(out@ =~= crate::mining_core::devs_outboxes(old(self).devices@, 0));
        }
        while i < n
            invariant
                i <= n,
                n == self.devices@.len(),
                self.wf(),
                out@ == crate::mining_core::devs_outboxes(old(self).devices@, i as int),
                *self == (OptimizedCpuMiningCore { devices: self.devices, ..*old(self) }),
                forall|k: int|
                    i <= k < n ==> #[trigger] self.devices@[k] == old(self).devices@[k],
                forall|k: int|
                    0 <= k < i ==> {
                        let d = #[trigger] self.devices@[k];
                        &&& d.outbox@.len() == 0
                        &&& d == (SoftwareDevice { outbox: d.outbox, ..old(self).devices@[k] })
                    },
            decreases n - i,
        {
            let mut taken: Vec<MiningResult> = Vec::new();
            core::mem::swap(&mut self.devices[i].outbox, &mut taken);
            out.append(&mut taken);
            proof {
                assert(crate::mining_core::devs_outboxes(old(self).devices@, i + 1)
                    == crate::mining_core::devs_outboxes(old(self).devices@, i as int) + old(
                    self,
                ).devices@[i as int].outbox@);
                assert(out@ =~= crate::mining_core::devs_outboxes(old(self).devices@, i + 1));
            }
            i = i + 1;
        }
        Ok(out)
    }

    /// Whether the core is running at all: its health signal.
    pub fn health_check(&self) -> (r: Result<bool, CoreError>)
        ensures
            r matches Ok(h) && h == self.running,
    {
        Ok(self.running)
    }

    /// The stock configuration of the wide-machine core: nothing tuned, every
    /// option left to the machine.
    pub fn default_config(&self) -> (c: CoreConfig)
        ensures
            c.name@.len() > 0,
            c.device_count is None,
            c.devices@.len() == 0,
    {
        let mut c: CoreConfig = CoreConfig::default();
        c.name = "optimized-cpu-core".to_owned();
        proof {
            reveal_strlit("optimized-cpu-core");
        }
        c
    }

    /// Stops the core and lets go of every worker.
    pub fn shutdown(&mut self) -> (r: Result<(), CoreError>)
        requires
            old(self).wf(),
        ensures
            final(self).wf(),
            r is Ok,
            !final(self).running,
            final(self).devices@.len() == 0,
    {
        let _stop_result: Result<(), CoreError> = self.stop();
        self.devices.clear();
        Ok(())
    }
}

} // verus!
