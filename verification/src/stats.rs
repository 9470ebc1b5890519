//! Per-worker statistics with batched flushing and a multi-worker aggregator.
//!
//! A [`AtomicStats`] cell holds one worker's raw counters.  The worker's hot
//! loop owns it exclusively; readers take snapshots that are recent rather
//! than instantaneous.  A [`BatchStatsUpdater`] coalesces many small updates
//! into periodic bulk commits so that a loop performing millions of hash
//! attempts per second does not pay for one counter update per attempt.  The
//! [`AtomicStatsManager`] aggregates many workers' counters, always from the
//! raw counts, never by averaging pre-computed averages.

use vstd::prelude::*;

use crate::clock::now_nanos;

verus! {

/// Raw statistics counters of one worker.
///
/// Temperature and power are stored in centi-units with zero meaning
/// "no reading yet".  Timestamps are nanoseconds since the Unix epoch.
pub struct AtomicStats {
    pub total_hashes: u64,
    pub accepted_work: u64,
    pub rejected_work: u64,
    pub hardware_errors: u64,
    /// Centi-degrees Celsius; zero until a reading is recorded.
    pub temperature_centi: u32,
    /// Centi-watts; zero until a reading is recorded.
    pub power_centi: u32,
    pub start_time_nanos: u64,
    pub last_update_nanos: u64,
    pub device_id: u32,
}

/// Snapshot of one worker's statistics with derived throughput figures,
/// in hashes per second.
pub struct DeviceStats {
    pub device_id: u32,
    pub total_hashes: u64,
    pub accepted_work: u64,
    pub rejected_work: u64,
    pub hardware_errors: u64,
    pub current_hashrate: u64,
    pub average_hashrate: u64,
    /// Centi-degrees Celsius, absent until a reading was recorded.
    pub temperature_centi: Option<u32>,
    /// Centi-watts, absent until a reading was recorded.
    pub power_centi: Option<u32>,
    pub last_updated_nanos: u64,
}

impl AtomicStats {
    /// A zeroed counter cell whose start and last-update stamps coincide.
    pub fn new(device_id: u32) -> (s: AtomicStats)
        ensures
            s.total_hashes == 0,
            s.accepted_work == 0,
            s.rejected_work == 0,
            s.hardware_errors == 0,
            s.temperature_centi == 0,
            s.power_centi == 0,
            s.start_time_nanos == s.last_update_nanos,
            s.device_id == device_id,
    {
        let now: u64 = now_nanos();
        AtomicStats {
            total_hashes: 0,
            accepted_work: 0,
            rejected_work: 0,
            hardware_errors: 0,
            temperature_centi: 0,
            power_centi: 0,
            start_time_nanos: now,
            last_update_nanos: now,
            device_id,
        }
    }

    /// Adds raw hashes to the running total and stamps the update time.  The
    /// cell records raw counts only; throughput is derived by readers.
    pub fn record_hashes(&mut self, hashes: u64)
        requires
            old(self).total_hashes + hashes <= u64::MAX,
        ensures
            *final(self) == (AtomicStats {
                total_hashes: (old(self).total_hashes + hashes) as u64,
                last_update_nanos: final(self).last_update_nanos,
                ..*old(self)
            }),
    {
        self.total_hashes = self.total_hashes + hashes;
        self.last_update_nanos = now_nanos();
    }

    /// The raw figures a reader needs to derive throughput itself:
    /// total hashes, start stamp and last-update stamp.
    pub fn get_raw_stats(&self) -> (r: (u64, u64, u64))
        ensures
            r == (self.total_hashes, self.start_time_nanos, self.last_update_nanos),
    {
        (self.total_hashes, self.start_time_nanos, self.last_update_nanos)
    }

    /// Counts one accepted result.
    pub fn increment_accepted(&mut self)
        requires
            old(self).accepted_work < u64::MAX,
        ensures
            *final(self) == (AtomicStats {
                accepted_work: (old(self).accepted_work + 1) as u64,
                ..*old(self)
            }),
    {
        self.accepted_work = self.accepted_work + 1;
    }

    /// Counts one rejected result.
    pub fn increment_rejected(&mut self)
        requires
            old(self).rejected_work < u64::MAX,
        ensures
            *final(self) == (AtomicStats {
                rejected_work: (old(self).rejected_work + 1) as u64,
                ..*old(self)
            }),
    {
        self.rejected_work = self.rejected_work + 1;
    }

    /// Counts one hardware error.
    pub fn increment_hardware_errors(&mut self)
        requires
            old(self).hardware_errors < u64::MAX,
        ensures
            *final(self) == (AtomicStats {
                hardware_errors: (old(self).hardware_errors + 1) as u64,
                ..*old(self)
            }),
    {
        self.hardware_errors = self.hardware_errors + 1;
    }

    /// Records a temperature reading in centi-degrees Celsius.
    pub fn update_temperature(&mut self, temp_centi: u32)
        ensures
            *final(self) == (AtomicStats { temperature_centi: temp_centi, ..*old(self) }),
    {
        self.temperature_centi = temp_centi;
    }

    /// Records a power reading in centi-watts.
    pub fn update_power_consumption(&mut self, power_centi: u32)
        ensures
            *final(self) == (AtomicStats { power_centi: power_centi, ..*old(self) }),
    {
        self.power_centi = power_centi;
    }

    /// Assembles a snapshot around throughput figures the caller derived from
    /// the raw counts.
    pub fn to_device_stats_with_hashrate(&self, current_hashrate: u64, average_hashrate: u64)
        -> (r: DeviceStats)
        ensures
            r == (DeviceStats {
                device_id: self.device_id,
                total_hashes: self.total_hashes,
                accepted_work: self.accepted_work,
                rejected_work: self.rejected_work,
                hardware_errors: self.hardware_errors,
                current_hashrate: current_hashrate,
                average_hashrate: average_hashrate,
                temperature_centi: if self.temperature_centi != 0 {
                    Some(self.temperature_centi)
                } else {
                    None
                },
                power_centi: if self.power_centi != 0 {
                    Some(self.power_centi)
                } else {
                    None
                },
                last_updated_nanos: self.last_update_nanos,
            }),
    {
        DeviceStats {
            device_id: self.device_id,
            total_hashes: self.total_hashes,
            accepted_work: self.accepted_work,
            rejected_work: self.rejected_work,
            hardware_errors: self.hardware_errors,
            current_hashrate,
            average_hashrate,
            temperature_centi: if self.temperature_centi != 0 {
                Some(self.temperature_centi)
            } else {
                None
            },
            power_centi: if self.power_centi != 0 {
                Some(self.power_centi)
            } else {
                None
            },
            last_updated_nanos: self.last_update_nanos,
        }
    }

    /// Zeroes every counter and reading and restarts the clock stamps.
    pub fn reset(&mut self)
        ensures
            final(self).total_hashes == 0,
            final(self).accepted_work == 0,
            final(self).rejected_work == 0,
            final(self).hardware_errors == 0,
            final(self).temperature_centi == 0,
            final(self).power_centi == 0,
            final(self).start_time_nanos == final(self).last_update_nanos,
            final(self).device_id == old(self).device_id,
    {
        let now: u64 = now_nanos();
        self.total_hashes = 0;
        self.accepted_work = 0;
        self.rejected_work = 0;
        self.hardware_errors = 0;
        self.temperature_centi = 0;
        self.power_centi = 0;
        self.start_time_nanos = now;
        self.last_update_nanos = now;
    }
}

/// Thread-local scratch counters that are flushed into an [`AtomicStats`]
/// cell in bulk, either when the batch interval has elapsed or on demand.
pub struct BatchStatsUpdater {
    pub local_hashes: u64,
    pub local_accepted: u64,
    pub local_rejected: u64,
    pub local_errors: u64,
    pub last_flush_nanos: u64,
    pub batch_interval_nanos: u64,
}

impl BatchStatsUpdater {
    /// Whether nothing is waiting to be flushed.
    pub open spec fn drained(&self) -> bool {
        &&& self.local_hashes == 0
        &&& self.local_accepted == 0
        &&& self.local_rejected == 0
        &&& self.local_errors == 0
    }

    /// A fresh updater with empty scratch counters that flushes at most once
    /// per `batch_interval_ms` milliseconds.
    pub fn new(batch_interval_ms: u64) -> (u: BatchStatsUpdater)
        requires
            batch_interval_ms <= 1_000_000,
        ensures
            u.drained(),
    {
        BatchStatsUpdater {
            local_hashes: 0,
            local_accepted: 0,
            local_rejected: 0,
            local_errors: 0,
            last_flush_nanos: now_nanos(),
            batch_interval_nanos: batch_interval_ms * 1_000_000,
        }
    }

    /// Commits every scratch counter into the cell and empties the scratch.
    pub fn force_flush(&mut self, stats: &mut AtomicStats)
        requires
            old(stats).total_hashes + old(self).local_hashes <= u64::MAX,
            old(stats).accepted_work + old(self).local_accepted <= u64::MAX,
            old(stats).rejected_work + old(self).local_rejected <= u64::MAX,
            old(stats).hardware_errors + old(self).local_errors <= u64::MAX,
        ensures
            final(self).drained(),
            final(self).batch_interval_nanos == old(self).batch_interval_nanos,
            *final(stats) == (AtomicStats {
                total_hashes: (old(stats).total_hashes + old(self).local_hashes) as u64,
                accepted_work: (old(stats).accepted_work + old(self).local_accepted) as u64,
                rejected_work: (old(stats).rejected_work + old(self).local_rejected) as u64,
                hardware_errors: (old(stats).hardware_errors + old(self).local_errors) as u64,
                last_update_nanos: final(stats).last_update_nanos,
                ..*old(stats)
            }),
    {
        if self.local_hashes > 0 {
            stats.record_hashes(self.local_hashes);
            self.local_hashes = 0;
        }
        if self.local_accepted > 0 {
            let mut k: u64 = 0;
            let n: u64 = self.local_accepted;
            while k < n
                invariant
                    k <= n,
                    old(stats).accepted_work + n <= u64::MAX,
                    stats.total_hashes == old(stats).total_hashes + old(self).local_hashes,
                    stats.accepted_work == old(stats).accepted_work + k,
                    stats.rejected_work == old(stats).rejected_work,
                    stats.hardware_errors == old(stats).hardware_errors,
                    stats.temperature_centi == old(stats).temperature_centi,
                    stats.power_centi == old(stats).power_centi,
                    stats.start_time_nanos == old(stats).start_time_nanos,
                    stats.device_id == old(stats).device_id,
                decreases n - k,
            {
                stats.increment_accepted();
                k = k + 1;
            }
            self.local_accepted = 0;
        }
        if self.local_rejected > 0 {
            let mut k: u64 = 0;
            let n: u64 = self.local_rejected;
            while k < n
                invariant
                    k <= n,
                    old(stats).rejected_work + n <= u64::MAX,
                    stats.total_hashes == old(stats).total_hashes + old(self).local_hashes,
                    stats.accepted_work == old(stats).accepted_work + old(self).local_accepted,
                    stats.rejected_work == old(stats).rejected_work + k,
                    stats.hardware_errors == old(stats).hardware_errors,
                    stats.temperature_centi == old(stats).temperature_centi,
                    stats.power_centi == old(stats).power_centi,
                    stats.start_time_nanos == old(stats).start_time_nanos,
                    stats.device_id == old(stats).device_id,
                decreases n - k,
            {
                stats.increment_rejected();
                k = k + 1;
            }
            self.local_rejected = 0;
        }
        if self.local_errors > 0 {
            let mut k: u64 = 0;
            let n: u64 = self.local_errors;
            while k < n
                invariant
                    k <= n,
                    old(stats).hardware_errors + n <= u64::MAX,
                    stats.total_hashes == old(stats).total_hashes + old(self).local_hashes,
                    stats.accepted_work == old(stats).accepted_work + old(self).local_accepted,
                    stats.rejected_work == old(stats).rejected_work + old(self).local_rejected,
                    stats.hardware_errors == old(stats).hardware_errors + k,
                    stats.temperature_centi == old(stats).temperature_centi,
                    stats.power_centi == old(stats).power_centi,
                    stats.start_time_nanos == old(stats).start_time_nanos,
                    stats.device_id == old(stats).device_id,
                decreases n - k,
            {
                stats.increment_hardware_errors();
                k = k + 1;
            }
            self.local_errors = 0;
        }
        self.last_flush_nanos = now_nanos();
    }

    /// Flushes when the batch interval has elapsed since the last flush.
    /// Whether the clock says so cannot be pinned down, so either nothing
    /// changes or everything is committed; either way no count is lost.
    fn try_flush(&mut self, stats: &mut AtomicStats)
        requires
            old(stats).total_hashes + old(self).local_hashes <= u64::MAX,
            old(stats).accepted_work + old(self).local_accepted <= u64::MAX,
            old(stats).rejected_work + old(self).local_rejected <= u64::MAX,
            old(stats).hardware_errors + old(self).local_errors <= u64::MAX,
        ensures
            final(self).batch_interval_nanos == old(self).batch_interval_nanos,
            final(stats).total_hashes + final(self).local_hashes == old(stats).total_hashes + old(
                self,
            ).local_hashes,
            final(stats).accepted_work + final(self).local_accepted == old(stats).accepted_work
                + old(self).local_accepted,
            final(stats).rejected_work + final(self).local_rejected == old(stats).rejected_work
                + old(self).local_rejected,
            final(stats).hardware_errors + final(self).local_errors == old(stats).hardware_errors
                + old(self).local_errors,
            final(stats).device_id == old(stats).device_id,
            final(stats).start_time_nanos == old(stats).start_time_nanos,
            final(stats).temperature_centi == old(stats).temperature_centi,
            final(stats).power_centi == old(stats).power_centi,
    {
        let now: u64 = now_nanos();
        if now >= self.last_flush_nanos && now - self.last_flush_nanos >= self.batch_interval_nanos {
            self.force_flush(stats);
        }
    }

    /// Accumulates hashes locally, committing in bulk at the batch interval.
    pub fn add_hashes(&mut self, stats: &mut AtomicStats, count: u64)
        requires
            old(stats).total_hashes + old(self).local_hashes + count <= u64::MAX,
            old(stats).accepted_work + old(self).local_accepted <= u64::MAX,
            old(stats).rejected_work + old(self).local_rejected <= u64::MAX,
            old(stats).hardware_errors + old(self).local_errors <= u64::MAX,
        ensures
            final(stats).total_hashes + final(self).local_hashes == old(stats).total_hashes + old(
                self,
            ).local_hashes + count,
            final(stats).accepted_work + final(self).local_accepted == old(stats).accepted_work
                + old(self).local_accepted,
            final(stats).rejected_work + final(self).local_rejected == old(stats).rejected_work
                + old(self).local_rejected,
            final(stats).hardware_errors + final(self).local_errors == old(stats).hardware_errors
                + old(self).local_errors,
            final(stats).device_id == old(stats).device_id,
    {
        self.local_hashes = self.local_hashes + count;
        self.try_flush(stats);
    }

    /// Accumulates accepted results locally.
    pub fn add_accepted(&mut self, stats: &mut AtomicStats, count: u64)
        requires
            old(stats).total_hashes + old(self).local_hashes <= u64::MAX,
            old(stats).accepted_work + old(self).local_accepted + count <= u64::MAX,
            old(stats).rejected_work + old(self).local_rejected <= u64::MAX,
            old(stats).hardware_errors + old(self).local_errors <= u64::MAX,
        ensures
            final(stats).accepted_work + final(self).local_accepted == old(stats).accepted_work
                + old(self).local_accepted + count,
            final(stats).total_hashes + final(self).local_hashes == old(stats).total_hashes + old(
                self,
            ).local_hashes,
            final(stats).device_id == old(stats).device_id,
    {
        self.local_accepted = self.local_accepted + count;
        self.try_flush(stats);
    }

    /// Accumulates rejected results locally.
    pub fn add_rejected(&mut self, stats: &mut AtomicStats, count: u64)
        requires
            old(stats).total_hashes + old(self).local_hashes <= u64::MAX,
            old(stats).accepted_work + old(self).local_accepted <= u64::MAX,
            old(stats).rejected_work + old(self).local_rejected + count <= u64::MAX,
            old(stats).hardware_errors + old(self).local_errors <= u64::MAX,
        ensures
            final(stats).rejected_work + final(self).local_rejected == old(stats).rejected_work
                + old(self).local_rejected + count,
            final(stats).total_hashes + final(self).local_hashes == old(stats).total_hashes + old(
                self,
            ).local_hashes,
            final(stats).device_id == old(stats).device_id,
    {
        self.local_rejected = self.local_rejected + count;
        self.try_flush(stats);
    }

    /// Accumulates hardware errors locally.
    pub fn add_errors(&mut self, stats: &mut AtomicStats, count: u64)
        requires
            old(stats).total_hashes + old(self).local_hashes <= u64::MAX,
            old(stats).accepted_work + old(self).local_accepted <= u64::MAX,
            old(stats).rejected_work + old(self).local_rejected <= u64::MAX,
            old(stats).hardware_errors + old(self).local_errors + count <= u64::MAX,
        ensures
            final(stats).hardware_errors + final(self).local_errors == old(stats).hardware_errors
                + old(self).local_errors + count,
            final(stats).total_hashes + final(self).local_hashes == old(stats).total_hashes + old(
                self,
            ).local_hashes,
            final(stats).device_id == old(stats).device_id,
    {
        self.local_errors = self.local_errors + count;
        self.try_flush(stats);
    }
}

/// Counters describing the manager itself.
#[derive(Debug, Clone)]
pub struct ManagerStats {
    pub device_count: usize,
    pub update_interval_ms: u64,
    pub last_update_nanos: u64,
}

/// Owns the statistics cells of many workers plus one system-wide cell, and
/// recomputes the aggregate from raw counters on demand.
pub struct AtomicStatsManager {
    device_stats: Vec<AtomicStats>,
    global_stats: AtomicStats,
    update_interval_ms: u64,
    last_batch_update_nanos: u64,
}

/// Sum of the hash totals of the first `n` cells.
pub open spec fn sum_hashes(devs: Seq<AtomicStats>, n: int) -> int
    decreases n,
{
    if n <= 0 {
        0
    } else {
        sum_hashes(devs, n - 1) + devs[n - 1].total_hashes
    }
}

/// Sum of the accepted counts of the first `n` cells.
pub open spec fn sum_accepted(devs: Seq<AtomicStats>, n: int) -> int
    decreases n,
{
    if n <= 0 {
        0
    } else {
        sum_accepted(devs, n - 1) + devs[n - 1].accepted_work
    }
}

/// Sum of the rejected counts of the first `n` cells.
pub open spec fn sum_rejected(devs: Seq<AtomicStats>, n: int) -> int
    decreases n,
{
    if n <= 0 {
        0
    } else {
        sum_rejected(devs, n - 1) + devs[n - 1].rejected_work
    }
}

/// Sum of the hardware-error counts of the first `n` cells.
pub open spec fn sum_errors(devs: Seq<AtomicStats>, n: int) -> int
    decreases n,
{
    if n <= 0 {
        0
    } else {
        sum_errors(devs, n - 1) + devs[n - 1].hardware_errors
    }
}

/// Hashes per second given a hash total and a start stamp, at time `now`;
/// zero while no time has passed.
pub open spec fn spec_rate(hashes: u64, start_nanos: u64, now_nanos: u64) -> int {
    if now_nanos > start_nanos {
        (hashes * 1_000_000_000) / (now_nanos - start_nanos)
    } else {
        0
    }
}

/// A worker's elapsed-time throughput at `now`, capped at `u64::MAX`.
pub open spec fn device_rate(d: AtomicStats, now_nanos: u64) -> int {
    vstd::math::min(spec_rate(d.total_hashes, d.start_time_nanos, now_nanos), u64::MAX as int)
}

/// Sum of the throughputs of the first `n` cells at `now`.
pub open spec fn sum_rates(devs: Seq<AtomicStats>, now_nanos: u64, n: int) -> int
    decreases n,
{
    if n <= 0 {
        0
    } else {
        sum_rates(devs, now_nanos, n - 1) + device_rate(devs[n - 1], now_nanos)
    }
}

/// An integer capped at `u64::MAX`.
pub open spec fn sat_u64(x: int) -> int {
    vstd::math::min(x, u64::MAX as int)
}

/// Whether some cell in the sequence belongs to the given worker.
pub open spec fn has_device(devs: Seq<AtomicStats>, device_id: u32) -> bool {
    exists|i: int| 0 <= i < devs.len() && devs[i].device_id == device_id
}

impl AtomicStatsManager {
    /// The workers' cells, in registration order.
    pub closed spec fn devices(&self) -> Seq<AtomicStats> {
        self.device_stats@
    }

    /// The system-wide cell.
    pub closed spec fn global(&self) -> AtomicStats {
        self.global_stats
    }

    /// The configured update interval in milliseconds.
    pub closed spec fn interval_ms(&self) -> u64 {
        self.update_interval_ms
    }

    /// A well-formed manager has at most one cell per worker id.
    pub closed spec fn wf(&self) -> bool {
        forall|i: int, j: int|
            0 <= i < j < self.device_stats@.len() ==> self.device_stats@[i].device_id
                != self.device_stats@[j].device_id
    }

    /// A manager with no registered workers; the system-wide cell uses
    /// worker id zero.
    pub fn new(update_interval_ms: u64) -> (m: AtomicStatsManager)
        ensures
            m.wf(),
            m.devices().len() == 0,
            m.interval_ms() == update_interval_ms,
            m.global().device_id == 0,
    {
        AtomicStatsManager {
            device_stats: Vec::new(),
            global_stats: AtomicStats::new(0),
            update_interval_ms,
            last_batch_update_nanos: now_nanos(),
        }
    }

    /// Registers a worker: its cell starts zeroed.  Registering an id again
    /// replaces that worker's cell with a fresh one.
    pub fn register_device(&mut self, device_id: u32)
        requires
            old(self).wf(),
        ensures
            final(self).wf(),
            final(self).interval_ms() == old(self).interval_ms(),
            final(self).global() == old(self).global(),
            has_device(final(self).devices(), device_id),
            if has_device(old(self).devices(), device_id) {
                final(self).devices().len() == old(self).devices().len()
            } else {
                final(self).devices().len() == old(self).devices().len() + 1
            },
            forall|i: int|
                0 <= i < old(self).devices().len() && old(self).devices()[i].device_id != device_id
                    ==> final(self).devices()[i] == old(self).devices()[i],
            forall|i: int|
                0 <= i < final(self).devices().len() && final(self).devices()[i].device_id
                    == device_id ==> {
                    &&& final(self).devices()[i].total_hashes == 0
                    &&& final(self).devices()[i].accepted_work == 0
                    &&& final(self).devices()[i].rejected_work == 0
                    &&& final(self).devices()[i].hardware_errors == 0
                },
    {
        let fresh: AtomicStats = AtomicStats::new(device_id);
        let n: usize = self.device_stats.len();
        let mut i: usize = 0;
        while i < n
            invariant
                old(self).wf(),
                n == self.device_stats@.len(),
                i <= n,
                forall|k: int| 0 <= k < i ==> self.device_stats@[k].device_id != device_id,
                fresh.device_id == device_id,
                fresh.total_hashes == 0,
                fresh.accepted_work == 0,
                fresh.rejected_work == 0,
                fresh.hardware_errors == 0,
                self.device_stats@ == old(self).device_stats@,
                self.global_stats == old(self).global_stats,
                self.update_interval_ms == old(self).update_interval_ms,
            decreases n - i,
        {
            if self.device_stats[i].device_id == device_id {
                proof {
                    assert(old(self).device_stats@[i as int].device_id == device_id);
                    assert(has_device(old(self).device_stats@, device_id));
                }
                self.device_stats.set(i, fresh);
                proof {
                    assert(self.device_stats@[i as int].device_id == device_id);
                    assert(has_device(self.device_stats@, device_id));
                    assert(forall|k: int|
                        0 <= k < self.device_stats@.len() && self.device_stats@[k].device_id
                            == device_id ==> k == i);
                }
                return ;
            }
            i = i + 1;
        }
        proof {
            assert(forall|k: int|
                0 <= k < old(self).device_stats@.len() ==> old(
                    self,
                ).device_stats@[k].device_id != device_id);
            assert(!has_device(old(self).device_stats@, device_id));
        }
        self.device_stats.push(fresh);
        proof {
            assert(self.device_stats@[n as int].device_id == device_id);
            assert(has_device(self.device_stats@, device_id));
            assert(forall|k: int|
                0 <= k < self.device_stats@.len() && self.device_stats@[k].device_id == device_id
                    ==> k == n);
        }
    }

    /// Records raw hashes against one worker's cell; reports whether that
    /// worker is registered.
    pub fn record_device_hashes(&mut self, device_id: u32, hashes: u64) -> (r: bool)
        requires
            old(self).wf(),
            forall|i: int|
                0 <= i < old(self).devices().len() ==> (#[trigger] old(
                    self,
                ).devices()[i]).total_hashes + hashes <= u64::MAX,
        ensures
            r == has_device(old(self).devices(), device_id),
            final(self).devices().len() == old(self).devices().len(),
            final(self).global() == old(self).global(),
            final(self).interval_ms() == old(self).interval_ms(),
            final(self).wf(),
            forall|i: int|
                0 <= i < old(self).devices().len() && old(self).devices()[i].device_id != device_id
                    ==> final(self).devices()[i] == old(self).devices()[i],
            forall|i: int|
                0 <= i < old(self).devices().len() && old(self).devices()[i].device_id == device_id
                    ==> (#[trigger] final(self).devices()[i]) == (AtomicStats {
                    total_hashes: (old(self).devices()[i].total_hashes + hashes) as u64,
                    last_update_nanos: final(self).devices()[i].last_update_nanos,
                    ..old(self).devices()[i]
                }),
    {
        let n: usize = self.device_stats.len();
        let mut i: usize = 0;
        while i < n
            invariant
                i <= n,
                n == self.device_stats@.len(),
                forall|k: int| 0 <= k < i ==> self.device_stats@[k].device_id != device_id,
                self.device_stats@ == old(self).device_stats@,
                self.global_stats == old(self).global_stats,
                self.update_interval_ms == old(self).update_interval_ms,
                old(self).wf(),
                forall|k: int|
                    0 <= k < n ==> (#[trigger] old(self).devices()[k]).total_hashes + hashes
                        <= u64::MAX,
            decreases n - i,
        {
            if self.device_stats[i].device_id == device_id {
                proof {
                    assert(old(self).devices()[i as int].total_hashes + hashes <= u64::MAX);
                }
                self.device_stats[i].record_hashes(hashes);
                proof {
                    assert(has_device(old(self).device_stats@, device_id));
                }
                return true;
            }
            i = i + 1;
        }
        proof {
            assert(!has_device(old(self).device_stats@, device_id));
        }
        false
    }

    /// The cell of one worker, if that worker is registered.
    pub fn get_device_stats(&self, device_id: u32) -> (r: Option<&AtomicStats>)
        ensures
            match r {
                Some(s) => s.device_id == device_id && (exists|i: int|
                    0 <= i < self.devices().len() && (#[trigger] self.devices()[i]).device_id
                        == device_id && *s == self.devices()[i]),
                None => !has_device(self.devices(), device_id),
            },
            r is Some <==> has_device(self.devices(), device_id),
    {
        let n: usize = self.device_stats.len();
        let mut i: usize = 0;
        while i < n
            invariant
                n == self.device_stats@.len(),
                i <= n,
                forall|k: int| 0 <= k < i ==> self.device_stats@[k].device_id != device_id,
            decreases n - i,
        {
            if self.device_stats[i].device_id == device_id {
                proof {
                    assert(self.devices()[i as int].device_id == device_id);
                    assert(has_device(self.devices(), device_id));
                }
                return Some(&self.device_stats[i]);
            }
            i = i + 1;
        }
        None
    }

    /// The system-wide cell.
    pub fn get_global_stats(&self) -> (r: &AtomicStats)
        ensures
            *r == self.global(),
    {
        &self.global_stats
    }

    /// Recomputes the aggregate at the given instant: every total is the sum
    /// of the workers' raw counters, the aggregate throughput is the sum of
    /// the per-worker elapsed-time throughputs, and the average is that sum
    /// divided by the number of workers — never an average of averages.
    /// Every figure is capped at `u64::MAX`.  The system-wide cell is updated
    /// to the same totals.
    pub fn aggregate_stats_at(&mut self, now_nanos_arg: u64) -> (r: DeviceStats)
        ensures
            final(self).devices() == old(self).devices(),
            final(self).interval_ms() == old(self).interval_ms(),
            ({
                let devs = old(self).devices();
                let n = devs.len() as int;
                &&& r.total_hashes == sat_u64(sum_hashes(devs, n))
                &&& r.accepted_work == sat_u64(sum_accepted(devs, n))
                &&& r.rejected_work == sat_u64(sum_rejected(devs, n))
                &&& r.hardware_errors == sat_u64(sum_errors(devs, n))
                &&& r.current_hashrate == sat_u64(sum_rates(devs, now_nanos_arg, n))
                &&& r.average_hashrate == sat_u64(
                    if n > 0 {
                        sum_rates(devs, now_nanos_arg, n) / n
                    } else {
                        0
                    },
                )
                &&& final(self).global().total_hashes == r.total_hashes
                &&& final(self).global().accepted_work == r.accepted_work
                &&& final(self).global().rejected_work == r.rejected_work
                &&& final(self).global().hardware_errors == r.hardware_errors
                &&& r.device_id == old(self).global().device_id
            }),
    {
        let n: usize = self.device_stats.len();
        let mut total_hashes: u128 = 0;
        let mut total_accepted: u128 = 0;
        let mut total_rejected: u128 = 0;
        let mut total_errors: u128 = 0;
        let mut total_rate: u128 = 0;
        let mut i: usize = 0;
        while i < n
            invariant
                n == self.device_stats@.len(),
                i <= n,
                total_hashes == sum_hashes(self.device_stats@, i as int),
                total_accepted == sum_accepted(self.device_stats@, i as int),
                total_rejected == sum_rejected(self.device_stats@, i as int),
                total_errors == sum_errors(self.device_stats@, i as int),
                total_rate == sum_rates(self.device_stats@, now_nanos_arg, i as int),
                total_hashes <= i * (u64::MAX as int),
                total_accepted <= i * (u64::MAX as int),
                total_rejected <= i * (u64::MAX as int),
                total_errors <= i * (u64::MAX as int),
                total_rate <= i * (u64::MAX as int),
                *self == *old(self),
            decreases n - i,
        {
            let d: &AtomicStats = &self.device_stats[i];
            proof {
                assert((i + 1) * (u64::MAX as int) == i * (u64::MAX as int) + u64::MAX as int)
                    by (nonlinear_arith);
                assert(n * (u64::MAX as int) < u128::MAX as int) by (nonlinear_arith)
                    requires
                        n <= usize::MAX,
                ;
                assert(i * (u64::MAX as int) <= n * (u64::MAX as int)) by (nonlinear_arith)
                    requires
                        0 <= i <= n,
                ;
            }
            total_hashes = total_hashes + d.total_hashes as u128;
            total_accepted = total_accepted + d.accepted_work as u128;
            total_rejected = total_rejected + d.rejected_work as u128;
            total_errors = total_errors + d.hardware_errors as u128;
            let rate: u64 = if now_nanos_arg > d.start_time_nanos {
                let elapsed: u64 = now_nanos_arg - d.start_time_nanos;
                let wide: u128 = (d.total_hashes as u128) * 1_000_000_000u128 / (elapsed as u128);
                if wide > u64::MAX as u128 {
                    u64::MAX
                } else {
                    wide as u64
                }
            } else {
                0
            };
            proof {
                assert(rate as int == device_rate(self.device_stats@[i as int], now_nanos_arg));
            }
            total_rate = total_rate + rate as u128;
            i = i + 1;
        }
        let agg_hashes: u64 = if total_hashes > u64::MAX as u128 {
            u64::MAX
        } else {
            total_hashes as u64
        };
        let agg_accepted: u64 = if total_accepted > u64::MAX as u128 {
            u64::MAX
        } else {
            total_accepted as u64
        };
        let agg_rejected: u64 = if total_rejected > u64::MAX as u128 {
            u64::MAX
        } else {
            total_rejected as u64
        };
        let agg_errors: u64 = if total_errors > u64::MAX as u128 {
            u64::MAX
        } else {
            total_errors as u64
        };
        let agg_rate: u64 = if total_rate > u64::MAX as u128 {
            u64::MAX
        } else {
            total_rate as u64
        };
        let avg_rate: u64 = if n > 0 {
            let avg_wide: u128 = total_rate / (n as u128);
            if avg_wide > u64::MAX as u128 {
                u64::MAX
            } else {
                avg_wide as u64
            }
        } else {
            0
        };
        self.global_stats.total_hashes = agg_hashes;
        self.global_stats.accepted_work = agg_accepted;
        self.global_stats.rejected_work = agg_rejected;
        self.global_stats.hardware_errors = agg_errors;
        self.global_stats.to_device_stats_with_hashrate(agg_rate, avg_rate)
    }

    /// Recomputes the aggregate as of now.
    pub fn aggregate_stats(&mut self) -> (r: DeviceStats)
        ensures
            final(self).devices() == old(self).devices(),
            final(self).interval_ms() == old(self).interval_ms(),
            ({
                let devs = old(self).devices();
                let n = devs.len() as int;
                &&& r.total_hashes == sat_u64(sum_hashes(devs, n))
                &&& r.accepted_work == sat_u64(sum_accepted(devs, n))
                &&& r.rejected_work == sat_u64(sum_rejected(devs, n))
                &&& r.hardware_errors == sat_u64(sum_errors(devs, n))
            }),
    {
        let now: u64 = now_nanos();
        self.aggregate_stats_at(now)
    }

    /// Zeroes every worker's cell and the system-wide cell.
    pub fn reset_all_stats(&mut self)
        ensures
            final(self).devices().len() == old(self).devices().len(),
            forall|i: int|
                0 <= i < final(self).devices().len() ==> {
                    &&& final(self).devices()[i].total_hashes == 0
                    &&& final(self).devices()[i].accepted_work == 0
                    &&& final(self).devices()[i].rejected_work == 0
                    &&& final(self).devices()[i].hardware_errors == 0
                    &&& final(self).devices()[i].temperature_centi == 0
                    &&& final(self).devices()[i].power_centi == 0
                    &&& final(self).devices()[i].start_time_nanos
                        == final(self).devices()[i].last_update_nanos
                    &&& final(self).devices()[i].device_id == old(self).devices()[i].device_id
                },
            final(self).global().total_hashes == 0,
            final(self).global().accepted_work == 0,
            final(self).global().rejected_work == 0,
            final(self).global().hardware_errors == 0,
            final(self).global().temperature_centi == 0,
            final(self).global().power_centi == 0,
            final(self).global().start_time_nanos == final(self).global().last_update_nanos,
            final(self).interval_ms() == old(self).interval_ms(),
    {
        let n: usize = self.device_stats.len();
        let mut i: usize = 0;
        while i < n
            invariant
                n == self.device_stats@.len(),
                i <= n,
                forall|k: int|
                    0 <= k < i ==> {
                        &&& self.device_stats@[k].total_hashes == 0
                        &&& self.device_stats@[k].accepted_work == 0
                        &&& self.device_stats@[k].rejected_work == 0
                        &&& self.device_stats@[k].hardware_errors == 0
                        &&& self.device_stats@[k].temperature_centi == 0
                        &&& self.device_stats@[k].power_centi == 0
                        &&& self.device_stats@[k].start_time_nanos
                            == self.device_stats@[k].last_update_nanos
                        &&& self.device_stats@[k].device_id == old(
                            self,
                        ).device_stats@[k].device_id
                    },
                forall|k: int|
                    i <= k < n ==> self.device_stats@[k] == old(self).device_stats@[k],
                self.global_stats == old(self).global_stats,
                self.update_interval_ms == old(self).update_interval_ms,
            decreases n - i,
        {
            self.device_stats[i].reset();
            i = i + 1;
        }
        self.global_stats.reset();
    }

    /// Counters describing the manager: how many workers are registered and
    /// how it is configured.
    pub fn get_manager_stats(&self) -> (r: ManagerStats)
        ensures
            r.device_count == self.devices().len(),
            r.update_interval_ms == self.interval_ms(),
    {
        ManagerStats {
            device_count: self.device_stats.len(),
            update_interval_ms: self.update_interval_ms,
            last_update_nanos: self.last_batch_update_nanos,
        }
    }
}

/// Sum of the first `n` recorded amounts.
pub open spec fn sum_amounts(amounts: Seq<u64>, n: int) -> int
    decreases n,
{
    if n <= 0 {
        0
    } else {
        sum_amounts(amounts, n - 1) + amounts[n - 1]
    }
}

/// The counter value after the first `n` amounts were recorded, one
/// `record_hashes` update per amount.
pub open spec fn spec_recorded_total(start: int, amounts: Seq<u64>, n: int) -> int
    decreases n,
{
    if n <= 0 {
        start
    } else {
        spec_recorded_total(start, amounts, n - 1) + amounts[n - 1]
    }
}

/// Law: recording a series of hash counts, one update at a time, adds up
/// exactly — the counter read after all updates have been applied is the
/// starting value plus the sum of every amount, with none lost or counted
/// twice.  The update rule is a plain addition, so the total is the same
/// whatever order the updates land in.
pub proof fn lemma_recorded_hashes_sum_exactly(start: int, amounts: Seq<u64>)
    ensures
        spec_recorded_total(start, amounts, amounts.len() as int) == start + sum_amounts(
            amounts,
            amounts.len() as int,
        ),
{
    lemma_recorded_prefix(start, amounts, amounts.len() as int);
}

/// The prefix form of the accumulation law.
proof fn lemma_recorded_prefix(start: int, amounts: Seq<u64>, n: int)
    ensures
        spec_recorded_total(start, amounts, n) == start + sum_amounts(amounts, n),
    decreases n,
{
    if n > 0 {
        lemma_recorded_prefix(start, amounts, n - 1);
    }
}

} // verus!
