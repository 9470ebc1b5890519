//! Compute core of a CPU mining engine: a bounded job queue with staleness
//! tracking, per-worker statistics with batched flushing, an exponential-decay
//! throughput estimator, a worker execution state machine, a CPU-affinity
//! scheduler and an aggregating core that fans work out over many workers.

use vstd::prelude::*;

pub(crate) mod clock;
pub mod affinity;
pub mod device;
pub mod factory;
pub mod hashrate;
pub mod mining_core;
pub mod optimized;
pub mod performance;
pub mod platform;
pub mod queue;
pub mod stats;
pub mod temperature;
pub mod types;
pub mod work;

verus! {

/// Version of the library, reported in core information.
pub const VERSION: &'static str = "0.1.0";

/// Descriptive information about the compute core this library provides.
pub fn get_core_info() -> (r: types::CoreInfo)
    ensures
        r.core_type matches types::CoreType::Custom(t) && t@ == "optimized_cpu"@,
        r.name@.len() > 0,
{
    proof {
        reveal_strlit("Optimized CPU Mining Core");
    }
    types::CoreInfo::new(
        "Optimized CPU Mining Core".to_owned(),
        types::CoreType::Custom("optimized_cpu".to_owned()),
        VERSION.to_owned(),
        "software compute core running the double-digest search on processor cores".to_owned(),
        "CGMiner Rust Team".to_owned(),
        Vec::new(),
    )
}

/// A factory for the software compute core.
pub fn create_factory() -> (r: factory::SoftwareCoreFactory)
    ensures
        r.core_info.core_type matches types::CoreType::Custom(t) && t@ == "software"@,
{
    factory::SoftwareCoreFactory::new()
}

} // verus!
