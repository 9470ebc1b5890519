//! CPU-core assignment for workers.
//!
//! A pure mapping table from worker id to logical processor, under one of a
//! small, closed set of strategies.  Binding a thread to the chosen core is
//! best-effort: a failed bind is reported, never fatal.

use vstd::prelude::*;

verus! {

#[verifier::external_type_specification]
pub struct ExCoreId(core_affinity::CoreId);

/// Relies on `core_affinity::get_core_ids`: the logical processors the
/// process may use, or nothing if they cannot be determined.  What the
/// machine offers cannot be promised.
#[verifier::external_body]
fn get_core_ids_raw() -> Option<Vec<core_affinity::CoreId>> {
    core_affinity::get_core_ids()
}

/// Relies on `core_affinity::set_for_current`: whether the calling thread
/// was pinned to the given core.  Success depends on the platform.
#[verifier::external_body]
pub(crate) fn bind_core(core_id: core_affinity::CoreId) -> bool {
    core_affinity::set_for_current(core_id)
}

/// Relies on `num_cpus::get`: the number of logical processors, documented
/// to always be at least one.
pub assume_specification[ num_cpus::get ]() -> (r: usize)
    ensures
        r >= 1,
;

/// Relies on `num_cpus::get_physical`: the number of physical cores,
/// documented to always be at least one.
pub assume_specification[ num_cpus::get_physical ]() -> (r: usize)
    ensures
        r >= 1,
;

/// How workers are spread over processor cores.
#[derive(Debug, Clone)]
pub enum CpuAffinityStrategy {
    /// Worker `i` takes core `i` modulo the core count.
    RoundRobin,
    /// An explicit worker-to-core table; unmapped workers fall back to
    /// round-robin, as does a mapped index that is out of range.
    Manual(Vec<(u32, usize)>),
    /// Restrict placement to the first half of the cores.
    PerformanceFirst,
    /// Skip alternating core indices, presumed to be hardware threads.
    PhysicalCoresOnly,
    /// Spread across physical cores first, then fall back to round-robin.
    Intelligent,
    /// Reserved for a feedback-driven policy; places like round-robin.
    LoadBalanced,
}

/// The first core index an explicit table names for a worker.
pub open spec fn spec_manual_lookup(mapping: Seq<(u32, usize)>, device_id: u32) -> Option<usize>
    decreases mapping.len(),
{
    if mapping.len() == 0 {
        None
    } else if mapping[0].0 == device_id {
        Some(mapping[0].1)
    } else {
        spec_manual_lookup(mapping.drop_first(), device_id)
    }
}

/// The core index a strategy chooses for a worker, out of `core_count`
/// available cores and given `physical_count` physical cores.
pub open spec fn spec_core_index(
    strategy: CpuAffinityStrategy,
    device_id: u32,
    core_count: usize,
    physical_count: usize,
) -> int {
    match strategy {
        CpuAffinityStrategy::RoundRobin => device_id as int % core_count as int,
        CpuAffinityStrategy::Manual(mapping) => match spec_manual_lookup(mapping@, device_id) {
            Some(core_index) => if core_index < core_count {
                core_index as int
            } else {
                device_id as int % core_count as int
            },
            None => device_id as int % core_count as int,
        },
        CpuAffinityStrategy::PerformanceFirst => {
            let half = core_count as int / 2;
            device_id as int % (if half >= 1 {
                half
            } else {
                1
            })
        },
        CpuAffinityStrategy::PhysicalCoresOnly => {
            let evens = (core_count as int - 1) / 2 + 1;
            2 * (device_id as int % evens)
        },
        CpuAffinityStrategy::Intelligent => {
            if physical_count >= 4 && (device_id as int) < physical_count as int {
                (device_id as int * 2) % core_count as int
            } else {
                device_id as int % core_count as int
            }
        },
        CpuAffinityStrategy::LoadBalanced => device_id as int % core_count as int,
    }
}

/// Chooses the core index for a worker under a strategy.
fn choose_core_index(
    strategy: &CpuAffinityStrategy,
    device_id: u32,
    core_count: usize,
    physical_count: usize,
) -> (idx: usize)
    requires
        1 <= core_count,
        1 <= physical_count,
    ensures
        idx < core_count,
        idx as int == spec_core_index(*strategy, device_id, core_count, physical_count),
{
    match strategy {
        CpuAffinityStrategy::RoundRobin => (device_id as usize) % core_count,
        CpuAffinityStrategy::Manual(mapping) => {
            let mut i: usize = 0;
            let n: usize = mapping.len();
            proof {
                assert(mapping@.skip(0) =~= mapping@);
            }
            while i < n
                invariant
                    i <= n,
                    n == mapping@.len(),
                    1 <= core_count,
                    *strategy matches CpuAffinityStrategy::Manual(m) && m@ == mapping@,
                    spec_manual_lookup(mapping@, device_id) == spec_manual_lookup(
                        mapping@.skip(i as int),
                        device_id,
                    ),
                decreases n - i,
            {
                let pair: (u32, usize) = mapping[i];
                proof {
                    assert(mapping@.skip(i as int)[0] == mapping@[i as int]);
                    assert(mapping@.skip(i as int).drop_first() =~= mapping@.skip(i + 1));
                }
                if pair.0 == device_id {
                    proof {
                        assert(spec_manual_lookup(mapping@, device_id) == Some(pair.1));
                        assert(*strategy matches CpuAffinityStrategy::Manual(m) && m@ == mapping@);
                        assert(spec_core_index(*strategy, device_id, core_count, physical_count)
                            == (if pair.1 < core_count {
                            pair.1 as int
                        } else {
                            device_id as int % core_count as int
                        }));
                    }
                    if pair.1 < core_count {
                        return pair.1;
                    } else {
                        return (device_id as usize) % core_count;
                    }
                }
                i = i + 1;
            }
            proof {
                assert(mapping@.skip(n as int).len() == 0);
                assert(spec_manual_lookup(mapping@, device_id) is None);
            }
            (device_id as usize) % core_count
        },
        CpuAffinityStrategy::PerformanceFirst => {
            let half: usize = core_count / 2;
            let bound: usize = if half >= 1 {
                half
            } else {
                1
            };
            (device_id as usize) % bound
        },
        CpuAffinityStrategy::PhysicalCoresOnly => {
            let evens: usize = (core_count - 1) / 2 + 1;
            let k: usize = (device_id as usize) % evens;
            proof {
                vstd::arithmetic::div_mod::lemma_fundamental_div_mod(core_count as int - 1, 2);
                assert(2 * (k as int) < core_count as int);
            }
            2 * k
        },
        CpuAffinityStrategy::Intelligent => {
            if physical_count >= 4 && (device_id as usize) < physical_count {
                (((device_id as u64) * 2) % (core_count as u64)) as usize
            } else {
                (device_id as usize) % core_count
            }
        },
        CpuAffinityStrategy::LoadBalanced => (device_id as usize) % core_count,
    }
}

/// Assigns workers to processor cores and binds threads on request.
pub struct CpuAffinityManager {
    available_cores: Vec<core_affinity::CoreId>,
    device_core_mapping: Vec<(u32, core_affinity::CoreId)>,
    enabled: bool,
    strategy: CpuAffinityStrategy,
}

/// A report on the current state of core assignment.
#[derive(Debug, Clone)]
pub struct CpuAffinityStats {
    pub total_cpu_cores: usize,
    pub physical_cpu_cores: usize,
    pub available_cores: usize,
    pub enabled: bool,
    pub bound_devices: usize,
    pub strategy: CpuAffinityStrategy,
}

/// The first core an assignment table records for a worker.
pub open spec fn spec_assigned_core(
    mapping: Seq<(u32, core_affinity::CoreId)>,
    device_id: u32,
) -> Option<core_affinity::CoreId>
    decreases mapping.len(),
{
    if mapping.len() == 0 {
        None
    } else if mapping[0].0 == device_id {
        Some(mapping[0].1)
    } else {
        spec_assigned_core(mapping.drop_first(), device_id)
    }
}

impl CpuAffinityManager {
    /// The logical cores available for placement.
    pub closed spec fn cores(&self) -> Seq<core_affinity::CoreId> {
        self.available_cores@
    }

    /// The recorded worker-to-core assignments.
    pub closed spec fn mapping(&self) -> Seq<(u32, core_affinity::CoreId)> {
        self.device_core_mapping@
    }

    /// Whether binding is in force.
    pub closed spec fn spec_enabled(&self) -> bool {
        self.enabled
    }

    /// The placement strategy in force.
    pub closed spec fn spec_strategy(&self) -> CpuAffinityStrategy {
        self.strategy
    }

    /// Binding is only ever enabled while at least one core is known.
    pub closed spec fn wf(&self) -> bool {
        self.enabled ==> self.available_cores@.len() >= 1
    }

    /// Probes the visible processor cores.  Binding stays disabled when it
    /// was not asked for or when no cores can be determined.
    pub fn new(enabled: bool, strategy: CpuAffinityStrategy) -> (m: CpuAffinityManager)
        ensures
            m.wf(),
            m.spec_strategy() == strategy,
            m.mapping().len() == 0,
            m.spec_enabled() == (enabled && m.cores().len() > 0),
    {
        let available_cores: Vec<core_affinity::CoreId> = match get_core_ids_raw() {
            Some(cores) => cores,
            None => Vec::new(),
        };
        let is_enabled: bool = enabled && available_cores.len() > 0;
        CpuAffinityManager {
            available_cores,
            device_core_mapping: Vec::new(),
            enabled: is_enabled,
            strategy,
        }
    }

    /// The number of logical processors in the system.
    pub fn get_cpu_count() -> (r: usize)
        ensures
            r >= 1,
    {
        num_cpus::get()
    }

    /// The number of physical processor cores in the system.
    pub fn get_physical_cpu_count() -> (r: usize)
        ensures
            r >= 1,
    {
        num_cpus::get_physical()
    }

    /// Whether binding is in force.
    pub fn is_enabled(&self) -> (r: bool)
        ensures
            r == self.spec_enabled(),
    {
        self.enabled
    }

    /// How many cores are available for placement.
    pub fn available_core_count(&self) -> (r: usize)
        ensures
            r == self.cores().len(),
    {
        self.available_cores.len()
    }

    /// Chooses and records a core for a worker under the strategy in force.
    /// Returns nothing while binding is disabled.  The physical-core count
    /// that the intelligent strategy consults comes from the machine, so the
    /// chosen index is pinned relative to whatever count was read.
    pub fn assign_cpu_core(&mut self, device_id: u32) -> (r: Option<core_affinity::CoreId>)
        requires
            old(self).wf(),
        ensures
            final(self).wf(),
            final(self).spec_enabled() == old(self).spec_enabled(),
            final(self).spec_strategy() == old(self).spec_strategy(),
            final(self).cores() == old(self).cores(),
            !old(self).spec_enabled() ==> r is None && final(self).mapping() == old(self).mapping(),
            old(self).spec_enabled() ==> (exists|physical_count: usize|
                physical_count >= 1 && r == Some(
                    old(self).cores()[
                        #[trigger] spec_core_index(
                            old(self).spec_strategy(),
                            device_id,
                            old(self).cores().len() as usize,
                            physical_count,
                        )
                    ],
                )),
            old(self).spec_enabled() ==> r is Some && spec_assigned_core(
                final(self).mapping(),
                device_id,
            ) == Some(r->Some_0),
    {
        if !self.enabled {
            return None;
        }
        let physical_count: usize = num_cpus::get_physical();
        let idx: usize = choose_core_index(
            &self.strategy,
            device_id,
            self.available_cores.len(),
            physical_count,
        );
        let core_id: core_affinity::CoreId = self.available_cores[idx];
        proof {
            assert(physical_count >= 1 && Some(core_id) == Some(
                old(self).cores()[
                    spec_core_index(
                        old(self).spec_strategy(),
                        device_id,
                        old(self).cores().len() as usize,
                        physical_count,
                    )
                ],
            ));
        }
        self.record_assignment(device_id, core_id);
        Some(core_id)
    }

    /// Records one worker-to-core assignment, replacing an earlier one.
    fn record_assignment(&mut self, device_id: u32, core_id: core_affinity::CoreId)
        ensures
            final(self).available_cores == old(self).available_cores,
            final(self).enabled == old(self).enabled,
            final(self).strategy == old(self).strategy,
            spec_assigned_core(final(self).device_core_mapping@, device_id) == Some(core_id),
    {
        let n: usize = self.device_core_mapping.len();
        let mut i: usize = 0;
        while i < n
            invariant
                i <= n,
                n == self.device_core_mapping@.len(),
                forall|k: int| 0 <= k < i ==> self.device_core_mapping@[k].0 != device_id,
                self.device_core_mapping@ == old(self).device_core_mapping@,
                self.available_cores == old(self).available_cores,
                self.enabled == old(self).enabled,
                self.strategy == old(self).strategy,
            decreases n - i,
        {
            let entry_id: u32 = self.device_core_mapping[i].0;
            if entry_id == device_id {
                self.device_core_mapping.set(i, (device_id, core_id));
                proof {
                    Self::lemma_assigned_core_at(
                        self.device_core_mapping@,
                        device_id,
                        core_id,
                        i as int,
                    );
                }
                return ;
            }
            i = i + 1;
        }
        self.device_core_mapping.push((device_id, core_id));
        proof {
            Self::lemma_assigned_core_at(self.device_core_mapping@, device_id, core_id, n as int);
        }
    }

    /// A table whose entries before `at` name other workers, and whose entry
    /// `at` names this worker, assigns this worker the core at `at`.
    proof fn lemma_assigned_core_at(
        mapping: Seq<(u32, core_affinity::CoreId)>,
        device_id: u32,
        core_id: core_affinity::CoreId,
        at: int,
    )
        requires
            0 <= at < mapping.len(),
            mapping[at] == (device_id, core_id),
            forall|k: int| 0 <= k < at ==> mapping[k].0 != device_id,
        ensures
            spec_assigned_core(mapping, device_id) == Some(core_id),
        decreases at,
    {
        if at == 0 {
        } else {
            assert(mapping.drop_first()[at - 1] == mapping[at]);
            assert(forall|k: int| 0 <= k < at - 1 ==> mapping.drop_first()[k] == mapping[k + 1]);
            Self::lemma_assigned_core_at(mapping.drop_first(), device_id, core_id, at - 1);
        }
    }

    /// The core recorded for a worker, if one was assigned.
    pub fn get_device_core(&self, device_id: u32) -> (r: Option<core_affinity::CoreId>)
        ensures
            r == spec_assigned_core(self.mapping(), device_id),
    {
        let n: usize = self.device_core_mapping.len();
        let mut i: usize = 0;
        proof {
            assert(self.device_core_mapping@.skip(0) =~= self.device_core_mapping@);
        }
        while i < n
            invariant
                i <= n,
                n == self.device_core_mapping@.len(),
                spec_assigned_core(self.device_core_mapping@, device_id) == spec_assigned_core(
                    self.device_core_mapping@.skip(i as int),
                    device_id,
                ),
            decreases n - i,
        {
            let entry: (u32, core_affinity::CoreId) = self.device_core_mapping[i];
            proof {
                assert(self.device_core_mapping@.skip(i as int)[0]
                    == self.device_core_mapping@[i as int]);
                assert(self.device_core_mapping@.skip(i as int).drop_first()
                    =~= self.device_core_mapping@.skip(i + 1));
            }
            if entry.0 == device_id {
                return Some(entry.1);
            }
            i = i + 1;
        }
        proof {
            assert(self.device_core_mapping@.skip(n as int).len() == 0);
        }
        None
    }

    /// Pins the calling thread to the worker's assigned core.  A disabled
    /// manager succeeds without binding; an unassigned worker or a refused
    /// bind is an error, which callers treat as a warning, never as fatal.
    pub fn bind_current_thread(&self, device_id: u32) -> (r: Result<(), String>)
        ensures
            !self.spec_enabled() ==> r is Ok,
            self.spec_enabled() && spec_assigned_core(self.mapping(), device_id) is None ==> r
                is Err,
    {
        if !self.enabled {
            return Ok(());
        }
        match self.get_device_core(device_id) {
            Some(core_id) => {
                if bind_core(core_id) {
                    Ok(())
                } else {
                    Err("the platform refused to bind the thread to its core".to_owned())
                }
            },
            None => Err("no core has been assigned to this worker".to_owned()),
        }
    }

    /// A report on the current assignment state.
    pub fn get_affinity_stats(&self) -> (r: CpuAffinityStats)
        ensures
            r.total_cpu_cores >= 1,
            r.physical_cpu_cores >= 1,
            r.available_cores == self.cores().len(),
            r.enabled == self.spec_enabled(),
            r.bound_devices == self.mapping().len(),
    {
        CpuAffinityStats {
            total_cpu_cores: num_cpus::get(),
            physical_cpu_cores: num_cpus::get_physical(),
            available_cores: self.available_cores.len(),
            enabled: self.enabled,
            bound_devices: self.device_core_mapping.len(),
            strategy: self.strategy.clone(),
        }
    }
}

/// Host-facing switches for core assignment.
#[derive(Debug, Clone)]
pub struct CpuAffinityConfig {
    pub enabled: bool,
    pub strategy: CpuAffinityStrategy,
    pub manual_mapping: Option<Vec<(u32, usize)>>,
}

impl Default for CpuAffinityConfig {
    /// Binding on, round-robin placement.
    fn default() -> (c: CpuAffinityConfig)
        ensures
            c.enabled,
            c.strategy is RoundRobin,
            c.manual_mapping is None,
    {
        CpuAffinityConfig {
            enabled: true,
            strategy: CpuAffinityStrategy::RoundRobin,
            manual_mapping: None,
        }
    }
}

impl CpuAffinityConfig {
    /// Binding on, round-robin placement.
    pub fn round_robin() -> (c: CpuAffinityConfig)
        ensures
            c.enabled,
            c.strategy is RoundRobin,
            c.manual_mapping is None,
    {
        CpuAffinityConfig {
            enabled: true,
            strategy: CpuAffinityStrategy::RoundRobin,
            manual_mapping: None,
        }
    }

    /// Binding on, with an explicit worker-to-core table.
    pub fn manual(mapping: Vec<(u32, usize)>) -> (c: CpuAffinityConfig)
        ensures
            c.enabled,
            c.strategy matches CpuAffinityStrategy::Manual(m) && m@ == mapping@,
            c.manual_mapping matches Some(m) && m@ == mapping@,
    {
        let table: Vec<(u32, usize)> = clone_mapping(&mapping);
        CpuAffinityConfig {
            enabled: true,
            strategy: CpuAffinityStrategy::Manual(table),
            manual_mapping: Some(mapping),
        }
    }

    /// Binding on, restricted to the first half of the cores.
    pub fn performance_first() -> (c: CpuAffinityConfig)
        ensures
            c.enabled,
            c.strategy is PerformanceFirst,
            c.manual_mapping is None,
    {
        CpuAffinityConfig {
            enabled: true,
            strategy: CpuAffinityStrategy::PerformanceFirst,
            manual_mapping: None,
        }
    }

    /// Binding on, skipping presumed hardware threads.
    pub fn physical_cores_only() -> (c: CpuAffinityConfig)
        ensures
            c.enabled,
            c.strategy is PhysicalCoresOnly,
            c.manual_mapping is None,
    {
        CpuAffinityConfig {
            enabled: true,
            strategy: CpuAffinityStrategy::PhysicalCoresOnly,
            manual_mapping: None,
        }
    }

    /// Binding off.
    pub fn disabled() -> (c: CpuAffinityConfig)
        ensures
            !c.enabled,
            c.strategy is RoundRobin,
            c.manual_mapping is None,
    {
        CpuAffinityConfig {
            enabled: false,
            strategy: CpuAffinityStrategy::RoundRobin,
            manual_mapping: None,
        }
    }
}

/// Copies a worker-to-core table entry by entry.
fn clone_mapping(mapping: &Vec<(u32, usize)>) -> (r: Vec<(u32, usize)>)
    ensures
        r@ == mapping@,
{
    let mut out: Vec<(u32, usize)> = Vec::new();
    let n: usize = mapping.len();
    let mut i: usize = 0;
    while i < n
        invariant
            i <= n,
            n == mapping@.len(),
            out@ =~= mapping@.take(i as int),
        decreases n - i,
    {
        out.push(mapping[i]);
        proof {
            assert(out@ =~= mapping@.take(i + 1));
        }
        i = i + 1;
    }
    proof {
        assert(mapping@.take(n as int) =~= mapping@);
    }
    out
}

} // verus!
