//! Plain data types shared across the engine: device and core configuration,
//! descriptive information, capability descriptions, status and errors.
//!
//! Readings that the wider ecosystem keeps as fractional numbers are held
//! here in integer centi-units (hundredths of a degree, of a watt) so that
//! every rule about them can be checked exactly.

use vstd::prelude::*;

verus! {

/// Life-cycle state of a worker.
#[derive(Clone, Copy, Debug, PartialEq, Eq, Structural)]
pub enum DeviceStatus {
    Uninitialized,
    Idle,
    Running,
}

/// Error raised by a worker operation.
#[derive(Debug)]
pub enum DeviceError {
    /// The hardware (or its stand-in) refused the operation.
    HardwareError(String),
    /// The worker could not be initialized.
    InitializationFailed(String),
    /// A configuration value was rejected.
    InvalidConfig(String),
}

impl DeviceError {
    /// The explanatory text carried by the error.
    pub fn message(&self) -> (r: &String)
        ensures
            *r == self.spec_message(),
    {
        match self {
            DeviceError::HardwareError(m) => m,
            DeviceError::InitializationFailed(m) => m,
            DeviceError::InvalidConfig(m) => m,
        }
    }

    /// The explanatory text carried by the error.
    pub open spec fn spec_message(&self) -> String {
        match self {
            DeviceError::HardwareError(m) => *m,
            DeviceError::InitializationFailed(m) => *m,
            DeviceError::InvalidConfig(m) => *m,
        }
    }
}

/// Error raised by a core operation.
#[derive(Debug)]
pub enum CoreError {
    /// A configuration value was rejected.
    Config(String),
    /// A runtime operation failed.
    Runtime(String),
    /// A worker operation failed beneath the core.
    Device(DeviceError),
}

/// Per-worker configuration.
#[derive(Clone, Debug)]
pub struct DeviceConfig {
    pub chain_id: u8,
    pub enabled: bool,
    /// Clock in megahertz; informational for a software worker.
    pub frequency: u32,
    /// Supply in millivolts; informational for a software worker.
    pub voltage: u32,
    pub auto_tune: bool,
    pub chip_count: u32,
    /// Shutdown ceiling in centi-degrees Celsius.
    pub temperature_limit_centi: u32,
    /// Requested fan speed in per cent, if any.
    pub fan_speed: Option<u32>,
}

impl Default for DeviceConfig {
    /// The stock worker configuration.
    fn default() -> (c: DeviceConfig)
        ensures
            c == (DeviceConfig {
                chain_id: 0u8,
                enabled: true,
                frequency: 600u32,
                voltage: 900u32,
                auto_tune: false,
                chip_count: 64u32,
                temperature_limit_centi: 8000u32,
                fan_speed: Some(50u32),
            }),
    {
        DeviceConfig {
            chain_id: 0,
            enabled: true,
            frequency: 600,
            voltage: 900,
            auto_tune: false,
            chip_count: 64,
            temperature_limit_centi: 8000,
            fan_speed: Some(50),
        }
    }
}

/// Descriptive information about a worker.
#[derive(Clone, Debug)]
pub struct DeviceInfo {
    pub id: u32,
    pub name: String,
    pub device_type: String,
    pub chain_id: u8,
    /// Last known temperature in centi-degrees Celsius, if any.
    pub temperature_centi: Option<u32>,
    /// Current fan speed in per cent, if any.
    pub fan_speed: Option<u32>,
    pub updated_at_nanos: u64,
}

impl DeviceInfo {
    /// Fresh worker information with no readings yet.
    pub fn new(id: u32, name: String, device_type: String, chain_id: u8) -> (d: DeviceInfo)
        ensures
            d.id == id,
            d.name == name,
            d.device_type == device_type,
            d.chain_id == chain_id,
            d.temperature_centi is None,
            d.fan_speed is None,
    {
        DeviceInfo {
            id,
            name,
            device_type,
            chain_id,
            temperature_centi: None,
            fan_speed: None,
            updated_at_nanos: 0,
        }
    }

    /// Records a temperature reading in centi-degrees Celsius.
    pub fn update_temperature(&mut self, temp_centi: u32)
        ensures
            *final(self) == (DeviceInfo { temperature_centi: Some(temp_centi), ..*old(self) }),
    {
        self.temperature_centi = Some(temp_centi);
    }
}

/// The family a core belongs to.
#[derive(Clone, Debug, PartialEq, Eq)]
pub enum CoreType {
    Custom(String),
}

/// Descriptive information about a core.
#[derive(Clone, Debug)]
pub struct CoreInfo {
    pub name: String,
    pub core_type: CoreType,
    pub version: String,
    pub description: String,
    pub author: String,
    pub tags: Vec<String>,
}

impl CoreInfo {
    /// Bundles the descriptive fields of a core.
    pub fn new(
        name: String,
        core_type: CoreType,
        version: String,
        description: String,
        author: String,
        tags: Vec<String>,
    ) -> (c: CoreInfo)
        ensures
            c.name == name,
            c.core_type == core_type,
            c.version == version,
            c.description == description,
            c.author == author,
            c.tags == tags,
    {
        CoreInfo { name, core_type, version, description, author, tags }
    }
}

/// What temperature handling a core offers.
#[derive(Clone, Debug)]
pub struct TemperatureCapabilities {
    pub supports_monitoring: bool,
    pub supports_control: bool,
    pub supports_threshold_alerts: bool,
    /// Reading granularity in centi-degrees, if monitoring is supported.
    pub monitoring_precision_centi: Option<u32>,
}

/// What voltage handling a core offers.
#[derive(Clone, Debug)]
pub struct VoltageCapabilities {
    pub supports_monitoring: bool,
    pub supports_control: bool,
    /// Settable range in millivolts, if control is supported.
    pub control_range: Option<(u32, u32)>,
}

/// What frequency handling a core offers.
#[derive(Clone, Debug)]
pub struct FrequencyCapabilities {
    pub supports_monitoring: bool,
    pub supports_control: bool,
    /// Settable range in megahertz, if control is supported.
    pub control_range: Option<(u32, u32)>,
}

/// What fan handling a core offers.
#[derive(Clone, Debug)]
pub struct FanCapabilities {
    pub supports_monitoring: bool,
    pub supports_control: bool,
    pub fan_count: Option<u32>,
}

/// Cache sizes of the processor a core runs on, in kibibytes.
#[derive(Clone, Debug)]
pub struct CpuCacheInfo {
    pub l1_data_kb: u32,
    pub l1_instruction_kb: u32,
    pub l2_kb: u32,
    pub l3_kb: u32,
}

/// Processor-specific abilities of a core.
#[derive(Clone, Debug)]
pub struct CpuSpecificCapabilities {
    pub simd_support: Vec<String>,
    pub supports_cpu_affinity: bool,
    pub supports_numa_awareness: bool,
    pub physical_cores: u32,
    pub logical_cores: u32,
    pub cache_info: Option<CpuCacheInfo>,
}

/// Everything a core can and cannot do.
#[derive(Clone, Debug)]
pub struct CoreCapabilities {
    pub supports_auto_tuning: bool,
    pub temperature_capabilities: TemperatureCapabilities,
    pub voltage_capabilities: VoltageCapabilities,
    pub frequency_capabilities: FrequencyCapabilities,
    pub fan_capabilities: FanCapabilities,
    pub supports_multiple_chains: bool,
    pub max_devices: Option<u32>,
    pub supported_algorithms: Vec<String>,
    pub cpu_capabilities: Option<CpuSpecificCapabilities>,
    pub core_type: CoreType,
}

/// Core-wide configuration.  The recognised tuning options are explicit
/// optional fields; hosts translate their free-form settings into them.
#[derive(Clone, Debug)]
pub struct CoreConfig {
    pub name: String,
    pub enabled: bool,
    pub devices: Vec<DeviceConfig>,
    /// How many workers to run.
    pub device_count: Option<u64>,
    /// Lower bound of the per-worker target throughput, hashes per second.
    pub min_hashrate: Option<u64>,
    /// Upper bound of the per-worker target throughput, hashes per second.
    pub max_hashrate: Option<u64>,
    /// Error-injection rate in parts per million, for testing.
    pub error_rate_ppm: Option<u32>,
    /// Batch-size hint for the workers' hot loops.
    pub batch_size: Option<u64>,
    /// How long a job may wait before it counts as timed out, milliseconds.
    pub work_timeout_ms: Option<u64>,
    /// Whether workers should be pinned to processor cores.
    pub cpu_affinity_enabled: Option<bool>,
    /// Name of the core-assignment strategy to use.
    pub cpu_affinity_strategy: Option<String>,
}

impl Default for CoreConfig {
    /// An empty, enabled configuration with no tuning options set.
    fn default() -> (c: CoreConfig)
        ensures
            c.devices@.len() == 0,
            c.enabled,
            c.device_count is None,
            c.min_hashrate is None,
            c.max_hashrate is None,
            c.error_rate_ppm is None,
            c.batch_size is None,
            c.work_timeout_ms is None,
            c.cpu_affinity_enabled is None,
            c.cpu_affinity_strategy is None,
    {
        CoreConfig {
            name: String::new(),
            enabled: true,
            devices: Vec::new(),
            device_count: None,
            min_hashrate: None,
            max_hashrate: None,
            error_rate_ppm: None,
            batch_size: None,
            work_timeout_ms: None,
            cpu_affinity_enabled: None,
            cpu_affinity_strategy: None,
        }
    }
}

/// Running totals of a whole core.
#[derive(Clone, Debug)]
pub struct CoreStats {
    pub name: String,
    pub device_count: u32,
    pub active_devices: u32,
    /// Sum of the workers' current throughputs, hashes per second.
    pub total_hashrate: u64,
    /// Core-level average throughput from raw totals, hashes per second.
    pub average_hashrate: u64,
    pub accepted_work: u64,
    pub rejected_work: u64,
    pub hardware_errors: u64,
    pub uptime_nanos: u64,
    pub last_updated_nanos: u64,
}

impl CoreStats {
    /// Zeroed totals for a named core.
    pub fn new(name: String) -> (s: CoreStats)
        ensures
            s.name == name,
            s.device_count == 0,
            s.active_devices == 0,
            s.total_hashrate == 0,
            s.average_hashrate == 0,
            s.accepted_work == 0,
            s.rejected_work == 0,
            s.hardware_errors == 0,
    {
        CoreStats {
            name,
            device_count: 0,
            active_devices: 0,
            total_hashrate: 0,
            average_hashrate: 0,
            accepted_work: 0,
            rejected_work: 0,
            hardware_errors: 0,
            uptime_nanos: 0,
            last_updated_nanos: 0,
        }
    }
}

} // verus!
