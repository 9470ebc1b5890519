//! The worker: owns a job queue, statistics and a throughput tracker, and
//! evaluates candidate solutions for the job it currently holds.
//!
//! A worker has two delivery modes, fixed before its loop starts: with a
//! report channel wired, satisfying results are buffered for the collector
//! and pull-based retrieval stays empty; without one, results are returned to
//! the puller.  Stopping raises a flag that the loop observes at batch
//! boundaries; a stopped step changes nothing.

use vstd::prelude::*;

use std::sync::Arc;

use crate::clock::now_nanos;
use crate::hashrate::HashrateTracker;
use crate::queue::{arc_clone, LockFreeWorkQueue};
use crate::stats::{AtomicStats, BatchStatsUpdater, DeviceStats};
use crate::types::{DeviceConfig, DeviceError, DeviceInfo, DeviceStatus};
use crate::work::{
    double_sha256, double_sha256_of, meets_target, meets_target_spec, MiningResult, ResultView,
    Work, WorkView,
};

verus! {

/// Candidates evaluated by one uninterrupted batch of the continuous loop.
pub const CONTINUOUS_BATCH: u32 = 100_000;

/// The error-injection scale: a rate of `ERROR_RATE_SCALE` discards every
/// candidate, a rate of zero none.
pub const ERROR_RATE_SCALE: u32 = 1_000_000;

/// Size of each worker's bounded pending-job store.
pub const DEVICE_QUEUE_CAPACITY: usize = 3;

/// Relies on `fastrand::u32`: a number drawn from the thread-local generator.
/// Nothing can be promised of a random draw.
#[verifier::external_body]
fn rand_u32() -> u32 {
    fastrand::u32(..)
}

/// Relies on `fastrand::u32`: a draw in `0 .. bound`, documented to stay in
/// the given range.  An empty range panics, which the precondition rules out.
#[verifier::external_body]
fn rand_below(bound: u32) -> (r: u32)
    requires
        bound >= 1,
    ensures
        r < bound,
{
    fastrand::u32(0..bound)
}

/// Byte `k` of a candidate parameter laid out little-endian.
pub open spec fn nonce_byte(nonce: u32, k: int) -> u8 {
    ((nonce >> (8 * k) as u32) & 0xFF) as u8
}

/// A trial input: the job's header with its last four bytes overwritten by
/// the candidate parameter, little-endian.  A header shorter than the
/// parameter is left as it is.
pub open spec fn spec_candidate_header(header: Seq<u8>, nonce: u32) -> Seq<u8> {
    if header.len() >= 4 {
        let n = header.len() as int;
        header.update(n - 4, nonce_byte(nonce, 0)).update(n - 3, nonce_byte(nonce, 1)).update(
            n - 2,
            nonce_byte(nonce, 2),
        ).update(n - 1, nonce_byte(nonce, 3))
    } else {
        header
    }
}

/// Copies a byte buffer.
fn clone_bytes(v: &Vec<u8>) -> (r: Vec<u8>)
    ensures
        r@ == v@,
{
    let mut out: Vec<u8> = Vec::new();
    let n: usize = v.len();
    let mut i: usize = 0;
    while i < n
        invariant
            i <= n,
            n == v@.len(),
            out@ =~= v@.take(i as int),
        decreases n - i,
    {
        out.push(v[i]);
        proof {
            assert(out@ =~= v@.take(i + 1));
        }
        i = i + 1;
    }
    proof {
        assert(v@.take(n as int) =~= v@);
    }
    out
}

/// Builds the trial input for one candidate from a private copy of the
/// job's header.
pub fn make_candidate_header(header: &Vec<u8>, nonce: u32) -> (r: Vec<u8>)
    ensures
        r@ == spec_candidate_header(header@, nonce),
{
    let mut h: Vec<u8> = clone_bytes(header);
    let n: usize = h.len();
    if n >= 4 {
        let b0: u8 = (nonce & 0xFF) as u8;
        let b1: u8 = ((nonce >> 8u32) & 0xFF) as u8;
        let b2: u8 = ((nonce >> 16u32) & 0xFF) as u8;
        let b3: u8 = ((nonce >> 24u32) & 0xFF) as u8;
        proof {
            assert(b0 == nonce_byte(nonce, 0)) by (bit_vector)
                requires
                    b0 == ((nonce & 0xFF) as u8),
            ;
            assert(b1 == nonce_byte(nonce, 1)) by (bit_vector)
                requires
                    b1 == (((nonce >> 8u32) & 0xFF) as u8),
            ;
            assert(b2 == nonce_byte(nonce, 2)) by (bit_vector)
                requires
                    b2 == (((nonce >> 16u32) & 0xFF) as u8),
            ;
            assert(b3 == nonce_byte(nonce, 3)) by (bit_vector)
                requires
                    b3 == (((nonce >> 24u32) & 0xFF) as u8),
            ;
        }
        h[n - 4] = b0;
        h[n - 3] = b1;
        h[n - 2] = b2;
        h[n - 1] = b3;
    }
    h
}

/// Whether a result records a satisfying candidate for the given job,
/// found by the given worker.
pub open spec fn spec_valid_result(res: ResultView, w: WorkView, device_id: u32) -> bool {
    &&& res.work_id == w.id
    &&& res.device_id == device_id
    &&& res.hash == double_sha256_of(spec_candidate_header(w.header, res.nonce))
    &&& res.meets_target
    &&& meets_target_spec(res.hash, w.target)
}

/// Evaluates one candidate: patches the parameter into a copy of the header,
/// digests it twice, and accepts when the digest satisfies the target and
/// the error draw does not fall under the injection rate.
pub fn evaluate_candidate(
    work: &Work,
    device_id: u32,
    nonce: u32,
    error_draw: u32,
    error_rate_ppm: u32,
) -> (r: Option<MiningResult>)
    requires
        error_rate_ppm <= ERROR_RATE_SCALE,
        error_draw < ERROR_RATE_SCALE,
    ensures
        r is Some <==> meets_target_spec(
            double_sha256_of(spec_candidate_header(work@.header, nonce)),
            work@.target,
        ) && error_draw >= error_rate_ppm,
        r matches Some(res) ==> res@ == (ResultView {
            work_id: work@.id,
            device_id: device_id,
            nonce: nonce,
            hash: double_sha256_of(spec_candidate_header(work@.header, nonce)),
            meets_target: true,
        }),
{
    let header: Vec<u8> = make_candidate_header(&work.header, nonce);
    let hash: Vec<u8> = double_sha256(&header);
    if meets_target(&hash, &work.target) && error_draw >= error_rate_ppm {
        Some(MiningResult::new(work.id.clone(), device_id, nonce, hash, true))
    } else {
        None
    }
}

/// The batch size one call of the batch miner works through: the target
/// throughput split over a fixed number of flush windows, clamped between
/// the configured batch size and five times it, and capped at `u32::MAX`.
pub open spec fn spec_adjusted_batch(target_hashrate: u64, batch_size: u32) -> int {
    if target_hashrate > 0 {
        let lo = batch_size as int;
        let hi = batch_size as int * 5;
        let t = target_hashrate as int / 5;
        let clamped = if t < lo {
            lo
        } else if t > hi {
            hi
        } else {
            t
        };
        if clamped > u32::MAX as int {
            u32::MAX as int
        } else {
            clamped
        }
    } else {
        batch_size as int
    }
}

/// Computes the batch size for one batch-miner call.
fn adjusted_batch(target_hashrate: u64, batch_size: u32) -> (r: u32)
    ensures
        r as int == spec_adjusted_batch(target_hashrate, batch_size),
{
    if target_hashrate > 0 {
        let lo: u64 = batch_size as u64;
        let hi: u64 = (batch_size as u64) * 5;
        let t: u64 = target_hashrate / 5;
        let clamped: u64 = if t < lo {
            lo
        } else if t > hi {
            hi
        } else {
            t
        };
        if clamped > u32::MAX as u64 {
            u32::MAX
        } else {
            clamped as u32
        }
    } else {
        batch_size
    }
}

/// What one iteration of the continuous loop did.
pub enum MiningStepOutcome {
    /// The stop flag was up; nothing was touched.
    Stopped,
    /// No job is in flight; the caller should back off briefly.
    NoWork,
    /// A batch was computed: this many candidates were hashed.
    Mined(u64),
}

/// A software worker.
pub struct SoftwareDevice {
    pub device_info: DeviceInfo,
    pub config: DeviceConfig,
    pub status: DeviceStatus,
    pub atomic_stats: AtomicStats,
    pub work_queue: LockFreeWorkQueue,
    pub hashrate_tracker: HashrateTracker,
    pub batch_updater: BatchStatsUpdater,
    /// Target throughput in hashes per second.
    pub target_hashrate: u64,
    /// Error-injection rate in parts per million.
    pub error_rate_ppm: u32,
    /// Configured batch-size hint.
    pub batch_size: u32,
    pub start_time_nanos: Option<u64>,
    pub last_mining_time_nanos: Option<u64>,
    /// The job in flight, shared read-only with its other holders.
    pub current_work: Option<Arc<Work>>,
    /// Where the continuous loop's candidate parameters continue from.
    pub nonce_iterator: u32,
    /// Raised by `stop`; observed at batch boundaries.
    pub mining_stop: bool,
    /// Fixed delivery mode: buffered push reports when true, pull otherwise.
    pub has_result_channel: bool,
    /// Push-mode results awaiting collection.
    pub outbox: Vec<MiningResult>,
    /// The processor core this worker should bind to, if any.
    pub assigned_core: Option<core_affinity::CoreId>,
    /// The temperature thresholds and the sensor probe taken at construction.
    pub temperature_manager: Option<crate::temperature::TemperatureManager>,
    /// Whether temperature availability has been checked and cached, so the
    /// loop never probes (or logs) twice.
    pub temperature_capability_checked: bool,
    /// The cached availability answer.
    pub temperature_capability_supported: bool,
}

impl SoftwareDevice {
    /// A well-formed worker: its queue is intact and its error rate is a
    /// fraction of the scale.
    pub open spec fn wf(&self) -> bool {
        &&& self.work_queue.wf()
        &&& self.error_rate_ppm <= ERROR_RATE_SCALE
    }

    /// Builds a worker in the uninitialized state with a small job queue and
    /// zeroed statistics.
    pub fn new(
        device_info: DeviceInfo,
        config: DeviceConfig,
        target_hashrate: u64,
        error_rate_ppm: u32,
        batch_size: u32,
    ) -> (r: Result<SoftwareDevice, DeviceError>)
        requires
            error_rate_ppm <= ERROR_RATE_SCALE,
        ensures
            r matches Ok(d) && {
                &&& d.wf()
                &&& d.status is Uninitialized
                &&& d.device_info == device_info
                &&& d.config == config
                &&& d.target_hashrate == target_hashrate
                &&& d.error_rate_ppm == error_rate_ppm
                &&& d.batch_size == batch_size
                &&& d.atomic_stats.total_hashes == 0
                &&& d.atomic_stats.accepted_work == 0
                &&& d.atomic_stats.device_id == device_info.id
                &&& d.work_queue@ == LockFreeWorkQueue::fresh_view(DEVICE_QUEUE_CAPACITY as nat)
                &&& d.current_work is None
                &&& !d.mining_stop
                &&& !d.has_result_channel
                &&& d.outbox@.len() == 0
                &&& d.assigned_core is None
                &&& d.temperature_manager is Some
                &&& !d.temperature_capability_checked
            },
    {
        let device_id: u32 = device_info.id;
        let temperature_manager: Option<crate::temperature::TemperatureManager> = Some(
            crate::temperature::TemperatureManager::new(
                crate::temperature::TemperatureConfig::default(),
            ),
        );
        Ok(
            SoftwareDevice {
                device_info,
                config,
                status: DeviceStatus::Uninitialized,
                atomic_stats: AtomicStats::new(device_id),
                work_queue: LockFreeWorkQueue::new(DEVICE_QUEUE_CAPACITY),
                hashrate_tracker: HashrateTracker::new(),
                batch_updater: BatchStatsUpdater::new(100),
                target_hashrate,
                error_rate_ppm,
                batch_size,
                start_time_nanos: None,
                last_mining_time_nanos: None,
                current_work: None,
                nonce_iterator: 0,
                mining_stop: false,
                has_result_channel: false,
                outbox: Vec::new(),
                assigned_core: None,
                temperature_manager,
                temperature_capability_checked: false,
                temperature_capability_supported: false,
            },
        )
    }

    /// Builds a worker and reserves a processor core for it from the
    /// assignment manager.
    pub fn new_with_cpu_affinity(
        device_info: DeviceInfo,
        config: DeviceConfig,
        target_hashrate: u64,
        error_rate_ppm: u32,
        batch_size: u32,
        cpu_affinity: &mut crate::affinity::CpuAffinityManager,
    ) -> (r: Result<SoftwareDevice, DeviceError>)
        requires
            error_rate_ppm <= ERROR_RATE_SCALE,
            old(cpu_affinity).wf(),
        ensures
            final(cpu_affinity).wf(),
            r matches Ok(d) && {
                &&& d.wf()
                &&& d.status is Uninitialized
                &&& d.device_info == device_info
                &&& d.config == config
                &&& d.target_hashrate == target_hashrate
                &&& d.error_rate_ppm == error_rate_ppm
                &&& d.batch_size == batch_size
                &&& d.current_work is None
                &&& !d.mining_stop
                &&& !d.has_result_channel
                &&& d.outbox@.len() == 0
            },
    {
        let device_id: u32 = device_info.id;
        let assigned_core: Option<core_affinity::CoreId> = cpu_affinity.assign_cpu_core(device_id);
        match Self::new(device_info, config, target_hashrate, error_rate_ppm, batch_size) {
            Ok(device) => Ok(SoftwareDevice { assigned_core, ..device }),
            Err(e) => Err(e),
        }
    }

    /// This worker's identifier.
    pub fn device_id(&self) -> (r: u32)
        ensures
            r == self.device_info.id,
    {
        self.device_info.id
    }

    /// Switches the worker into push delivery: found results are buffered
    /// for the collector, and pull-based retrieval stays empty.
    pub fn set_result_sender(&mut self)
        ensures
            *final(self) == (SoftwareDevice { has_result_channel: true, ..*old(self) }),
    {
        self.has_result_channel = true;
    }

    /// Applies a configuration, caches the one-time answer of the sensor
    /// probe taken at construction — later calls and the loop reuse the
    /// cache instead of probing again — and moves the worker to the idle
    /// state.
    pub fn initialize(&mut self, config: DeviceConfig) -> (r: Result<(), DeviceError>)
        ensures
            r is Ok,
            *final(self) == (SoftwareDevice {
                config: config,
                status: DeviceStatus::Idle,
                temperature_capability_checked: true,
                temperature_capability_supported: final(self).temperature_capability_supported,
                ..*old(self)
            }),
            final(self).temperature_capability_supported == (old(
                self,
            ).temperature_manager matches Some(m) && m.spec_has_monitoring()),
    {
        self.config = config;
        self.status = DeviceStatus::Idle;
        let supported: bool = match &self.temperature_manager {
            Some(manager) => manager.has_temperature_monitoring(),
            None => false,
        };
        self.temperature_capability_checked = true;
        self.temperature_capability_supported = supported;
        Ok(())
    }

    /// Starts the worker: binds its thread to the reserved core if one was
    /// reserved (best-effort), lowers the stop flag, records the start time
    /// and moves to the running state.  The host drives the loop itself.
    pub fn start(&mut self) -> (r: Result<(), DeviceError>)
        ensures
            r is Ok,
            *final(self) == (SoftwareDevice {
                status: DeviceStatus::Running,
                mining_stop: false,
                start_time_nanos: final(self).start_time_nanos,
                ..*old(self)
            }),
            final(self).start_time_nanos is Some,
    {
        if let Some(core_id) = self.assigned_core {
            // A refused bind is logged by the host; it never stops the worker.
            let _bound: bool = crate::affinity::bind_core(core_id);
        }
        self.status = DeviceStatus::Running;
        self.mining_stop = false;
        self.start_time_nanos = Some(now_nanos());
        Ok(())
    }

    /// Stops the worker: raises the stop flag, moves to idle and purges
    /// pending jobs whose generation is below the queue's current one.
    pub fn stop(&mut self) -> (r: Result<(), DeviceError>)
        requires
            old(self).wf(),
        ensures
            r is Ok,
            final(self).wf(),
            final(self).mining_stop,
            final(self).status is Idle,
            final(self).work_queue@.pending == LockFreeWorkQueue::spec_purged(
                old(self).work_queue@.pending,
                old(self).work_queue@.version,
            ),
            *final(self) == (SoftwareDevice {
                status: DeviceStatus::Idle,
                mining_stop: true,
                work_queue: final(self).work_queue,
                ..*old(self)
            }),
    {
        self.mining_stop = true;
        self.status = DeviceStatus::Idle;
        let valid_version: usize = self.work_queue.current_version();
        let _cleared: usize = self.work_queue.clear_stale_work(valid_version);
        Ok(())
    }

    /// Stops and starts the worker again.
    pub fn restart(&mut self) -> (r: Result<(), DeviceError>)
        requires
            old(self).wf(),
        ensures
            r is Ok,
            final(self).wf(),
            final(self).status is Running,
            !final(self).mining_stop,
    {
        let _stop_result: Result<(), DeviceError> = self.stop();
        self.start()
    }

    /// Hands a job to the worker's queue.  A full queue drops the job with a
    /// warning to the host; submission itself never fails.
    pub fn submit_work(&mut self, work: Arc<Work>) -> (r: Result<(), DeviceError>)
        requires
            old(self).wf(),
            old(self).work_queue@.total_enqueued < usize::MAX,
            old(self).work_queue@.active_count < usize::MAX,
            old(self).work_queue@.queue_full_count < usize::MAX,
        ensures
            r is Ok,
            final(self).wf(),
            final(self).work_queue@ == LockFreeWorkQueue::spec_enqueue(
                old(self).work_queue@,
                work@,
            ),
            *final(self) == (SoftwareDevice { work_queue: final(self).work_queue, ..*old(self) }),
    {
        let _enqueue_result: Result<(), Arc<Work>> = self.work_queue.enqueue_work(work);
        Ok(())
    }

    /// Mines one batch of randomly drawn candidates against the given job.
    /// How many candidates are evaluated is bounded by the adjusted batch
    /// size; the hash totals grow by exactly the number evaluated, and any
    /// returned result is a satisfying candidate for this job.
    pub fn mine_work(&mut self, work: &Work) -> (r: Result<Option<MiningResult>, DeviceError>)
        requires
            old(self).error_rate_ppm <= ERROR_RATE_SCALE,
            old(self).atomic_stats.total_hashes <= u64::MAX - 0x1_0000_0000,
            old(self).hashrate_tracker.total_hashes <= u64::MAX - 0x1_0000_0000,
            old(self).atomic_stats.accepted_work < u64::MAX,
            old(self).hashrate_tracker.accepted_shares < u64::MAX,
        ensures
            r is Ok,
            ({
                let h = final(self).atomic_stats.total_hashes - old(self).atomic_stats.total_hashes;
                &&& 0 <= h <= spec_adjusted_batch(old(self).target_hashrate, old(self).batch_size)
                &&& final(self).hashrate_tracker.total_hashes
                    == old(self).hashrate_tracker.total_hashes + h
            }),
            match r {
                Ok(found) => match found {
                    Some(res) => {
                        &&& spec_valid_result(res@, work@, old(self).device_info.id)
                        &&& final(self).atomic_stats.accepted_work == old(self).atomic_stats.accepted_work + 1
                        &&& final(self).hashrate_tracker.accepted_shares == old(self).hashrate_tracker.accepted_shares + 1
                        &&& final(self).atomic_stats.total_hashes >= old(
                            self,
                        ).atomic_stats.total_hashes + 1
                    },
                    None => {
                        &&& final(self).atomic_stats.accepted_work == old(self).atomic_stats.accepted_work
                        &&& final(self).hashrate_tracker.accepted_shares == old(self).hashrate_tracker.accepted_shares
                        &&& final(self).atomic_stats.total_hashes == old(
                            self,
                        ).atomic_stats.total_hashes + spec_adjusted_batch(
                            old(self).target_hashrate,
                            old(self).batch_size,
                        )
                    },
                },
                Err(_) => false,
            },
            *final(self) == (SoftwareDevice {
                atomic_stats: final(self).atomic_stats,
                hashrate_tracker: final(self).hashrate_tracker,
                last_mining_time_nanos: final(self).last_mining_time_nanos,
                ..*old(self)
            }),
            final(self).atomic_stats == (AtomicStats {
                total_hashes: final(self).atomic_stats.total_hashes,
                accepted_work: final(self).atomic_stats.accepted_work,
                last_update_nanos: final(self).atomic_stats.last_update_nanos,
                ..old(self).atomic_stats
            }),
    {
        let device_id: u32 = self.device_info.id;
        let error_rate_ppm: u32 = self.error_rate_ppm;
        let batch: u32 = adjusted_batch(self.target_hashrate, self.batch_size);
        let mut hashes: u64 = 0;
        let mut found: Option<MiningResult> = None;
        let mut i: u32 = 0;
        while i < batch && found.is_none()
            invariant
                i <= batch,
                error_rate_ppm <= ERROR_RATE_SCALE,
                hashes == i,
                found is Some ==> i >= 1,
                found matches Some(res) ==> spec_valid_result(res@, work@, device_id),
            decreases batch - i,
        {
            let nonce: u32 = rand_u32();
            let error_draw: u32 = rand_below(ERROR_RATE_SCALE);
            hashes = hashes + 1;
            match evaluate_candidate(work, device_id, nonce, error_draw, error_rate_ppm) {
                Some(res) => {
                    found = Some(res);
                },
                None => {},
            }
            i = i + 1;
        }
        if found.is_some() {
            self.atomic_stats.increment_accepted();
            self.hashrate_tracker.increment_accepted();
        }
        self.atomic_stats.record_hashes(hashes);
        self.hashrate_tracker.add_hashes(hashes);
        self.last_mining_time_nanos = Some(now_nanos());
        Ok(found)
    }

    /// Pull-based retrieval: takes one pending job and mines one batch
    /// against it.  With a report channel wired, a found result goes to the
    /// collector's buffer and this call returns nothing, so the two delivery
    /// modes never hand out the same result twice; without one, the found
    /// result is returned here.
    pub fn get_result(&mut self) -> (r: Result<Option<MiningResult>, DeviceError>)
        requires
            old(self).wf(),
            old(self).work_queue@.total_dequeued < usize::MAX,
            old(self).atomic_stats.total_hashes <= u64::MAX - 0x1_0000_0000,
            old(self).hashrate_tracker.total_hashes <= u64::MAX - 0x1_0000_0000,
            old(self).atomic_stats.accepted_work < u64::MAX,
            old(self).hashrate_tracker.accepted_shares < u64::MAX,
        ensures
            r is Ok,
            final(self).wf(),
            old(self).work_queue@.pending.len() == 0 ==> (r matches Ok(found) && found is None
                && final(self).work_queue@ == old(self).work_queue@ && *final(self)
                == (SoftwareDevice { work_queue: final(self).work_queue, ..*old(self) })),
            old(self).work_queue@.pending.len() > 0 ==> ({
                let h = final(self).atomic_stats.total_hashes - old(self).atomic_stats.total_hashes;
                let batch = spec_adjusted_batch(old(self).target_hashrate, old(self).batch_size);
                &&& final(self).work_queue@ == LockFreeWorkQueue::spec_dequeue(
                    old(self).work_queue@,
                ).0
                &&& final(self).hashrate_tracker.total_hashes == old(
                    self,
                ).hashrate_tracker.total_hashes + h
                &&& (!old(self).has_result_channel ==> final(self).outbox == old(self).outbox
                    && match r {
                    Ok(found) => match found {
                        Some(res) => spec_valid_result(
                            res@,
                            old(self).work_queue@.pending[0],
                            old(self).device_info.id,
                        ) && final(self).atomic_stats.accepted_work == old(
                            self,
                        ).atomic_stats.accepted_work + 1 && h >= 1,
                        None => final(self).atomic_stats.accepted_work == old(
                            self,
                        ).atomic_stats.accepted_work && h == batch,
                    },
                    Err(_) => false,
                })
                &&& (old(self).has_result_channel ==> (r matches Ok(found) && found is None) && {
                    ||| (final(self).outbox@ == old(self).outbox@.push(
                        final(self).outbox@.last(),
                    ) && spec_valid_result(
                        final(self).outbox@.last()@,
                        old(self).work_queue@.pending[0],
                        old(self).device_info.id,
                    ) && final(self).atomic_stats.accepted_work == old(
                        self,
                    ).atomic_stats.accepted_work + 1 && h >= 1)
                    ||| (final(self).outbox == old(self).outbox
                        && final(self).atomic_stats.accepted_work == old(
                        self,
                    ).atomic_stats.accepted_work && h == batch)
                })
            }),
            *final(self) == (SoftwareDevice {
                work_queue: final(self).work_queue,
                atomic_stats: final(self).atomic_stats,
                hashrate_tracker: final(self).hashrate_tracker,
                last_mining_time_nanos: final(self).last_mining_time_nanos,
                outbox: final(self).outbox,
                ..*old(self)
            }),
    {
        let dequeued: Option<Arc<Work>> = self.work_queue.dequeue_work();
        match dequeued {
            Some(work) => {
                let mined: Result<Option<MiningResult>, DeviceError> = self.mine_work(&work);
                match mined {
                    Ok(found) => {
                        match found {
                            Some(res) => {
                                if self.has_result_channel {
                                    self.outbox.push(res);
                                    Ok(None)
                                } else {
                                    Ok(Some(res))
                                }
                            },
                            None => Ok(None),
                        }
                    },
                    Err(e) => Err(e),
                }
            },
            None => Ok(None),
        }
    }

    /// One iteration of the continuous loop.  A raised stop flag ends the
    /// iteration before anything is touched.  Otherwise the worker adopts a
    /// newly arrived job if its id differs from the one in flight, restarts
    /// its candidate counter for it, and works through one fixed batch of
    /// sequential candidates; every satisfying candidate is buffered for the
    /// collector when a report channel is wired.
    pub fn continuous_mining_step(&mut self) -> (r: MiningStepOutcome)
        requires
            old(self).wf(),
            old(self).work_queue@.total_dequeued < usize::MAX,
            old(self).atomic_stats.total_hashes <= u64::MAX - CONTINUOUS_BATCH,
            old(self).hashrate_tracker.total_hashes <= u64::MAX - CONTINUOUS_BATCH,
            old(self).atomic_stats.accepted_work <= u64::MAX - CONTINUOUS_BATCH,
            old(self).hashrate_tracker.accepted_shares <= u64::MAX - CONTINUOUS_BATCH,
        ensures
            final(self).wf(),
            old(self).mining_stop ==> r is Stopped && *final(self) == *old(self),
            !old(self).mining_stop ==> !(r is Stopped),
            r is NoWork <==> (!old(self).mining_stop && old(self).current_work is None && old(
                self,
            ).work_queue@.pending.len() == 0),
            !old(self).mining_stop && (old(self).current_work is Some || old(
                self,
            ).work_queue@.pending.len() > 0) ==> r matches MiningStepOutcome::Mined(_),
            !old(self).mining_stop ==> final(self).work_queue@ == LockFreeWorkQueue::spec_dequeue(
                old(self).work_queue@,
            ).0,
            r is NoWork ==> final(self).work_queue@ == old(self).work_queue@ && *final(self)
                == (SoftwareDevice { work_queue: final(self).work_queue, ..*old(self) }),
            r matches MiningStepOutcome::Mined(h) ==> {
                &&& h == CONTINUOUS_BATCH
                &&& final(self).atomic_stats.total_hashes == old(self).atomic_stats.total_hashes
                    + CONTINUOUS_BATCH
                &&& final(self).hashrate_tracker.total_hashes
                    == old(self).hashrate_tracker.total_hashes + CONTINUOUS_BATCH
                &&& final(self).current_work is Some
                &&& final(self).outbox@.len() >= old(self).outbox@.len()
                &&& final(self).outbox@.take(old(self).outbox@.len() as int) == old(self).outbox@
                &&& (forall|k: int|
                    old(self).outbox@.len() <= k < final(self).outbox@.len()
                        ==> spec_valid_result(
                        #[trigger] final(self).outbox@[k]@,
                        final(self).current_work->Some_0@,
                        old(self).device_info.id,
                    ))
                &&& (!old(self).has_result_channel
                    ==> final(self).outbox@.len() == old(self).outbox@.len())
            },
    {
        if self.mining_stop {
            return MiningStepOutcome::Stopped;
        }

        // Adopt newly arrived work when it differs from the job in flight.
        let dequeued: Option<Arc<Work>> = self.work_queue.dequeue_work();
        match dequeued {
            Some(new_work) => {
                let switch: bool = match &self.current_work {
                    Some(in_flight) => !(in_flight.id == new_work.id),
                    None => true,
                };
                if switch {
                    self.current_work = Some(new_work);
                    self.nonce_iterator = 0;
                }
            },
            None => {},
        }

        let work: Arc<Work> = match &self.current_work {
            Some(in_flight) => arc_clone(in_flight),
            None => {
                return MiningStepOutcome::NoWork;
            },
        };

        let device_id: u32 = self.device_info.id;
        let ghost pre: SoftwareDevice = *self;
        let base_nonce: u32 = self.nonce_iterator;
        let mut i: u32 = 0;
        while i < CONTINUOUS_BATCH
            invariant
                i <= CONTINUOUS_BATCH,
                pre.atomic_stats.accepted_work <= u64::MAX - CONTINUOUS_BATCH,
                pre.hashrate_tracker.accepted_shares <= u64::MAX - CONTINUOUS_BATCH,
                self.outbox@.len() >= pre.outbox@.len(),
                self.outbox@.len() - pre.outbox@.len() <= i,
                self.outbox@.take(pre.outbox@.len() as int) == pre.outbox@,
                forall|k: int|
                    pre.outbox@.len() <= k < self.outbox@.len() ==> spec_valid_result(
                        #[trigger] self.outbox@[k]@,
                        work@,
                        device_id,
                    ),
                self.atomic_stats == (AtomicStats {
                    accepted_work: self.atomic_stats.accepted_work,
                    ..pre.atomic_stats
                }),
                self.atomic_stats.accepted_work == pre.atomic_stats.accepted_work + (
                self.outbox@.len() - pre.outbox@.len()),
                self.hashrate_tracker == (HashrateTracker {
                    accepted_shares: self.hashrate_tracker.accepted_shares,
                    ..pre.hashrate_tracker
                }),
                self.hashrate_tracker.accepted_shares == pre.hashrate_tracker.accepted_shares + (
                self.outbox@.len() - pre.outbox@.len()),
                *self == (SoftwareDevice {
                    atomic_stats: self.atomic_stats,
                    hashrate_tracker: self.hashrate_tracker,
                    outbox: self.outbox,
                    ..pre
                }),
                pre.current_work is Some && work@ == pre.current_work->Some_0@,
                pre.has_result_channel == self.has_result_channel,
                !pre.has_result_channel ==> self.outbox@.len() == pre.outbox@.len(),
            decreases CONTINUOUS_BATCH - i,
        {
            let nonce: u32 = base_nonce.wrapping_add(i);
            let header: Vec<u8> = make_candidate_header(&work.header, nonce);
            let hash: Vec<u8> = double_sha256(&header);
            if meets_target(&hash, &work.target) {
                if self.has_result_channel {
                    let res: MiningResult = MiningResult::new(
                        work.id.clone(),
                        device_id,
                        nonce,
                        hash,
                        true,
                    );
                    proof {
                        assert(spec_valid_result(res@, work@, device_id));
                    }
                    self.outbox.push(res);
                    self.atomic_stats.increment_accepted();
                    self.hashrate_tracker.increment_accepted();
                    proof {
                        assert(self.outbox@.take(pre.outbox@.len() as int) =~= pre.outbox@);
                    }
                }
            }
            i = i + 1;
        }
        self.nonce_iterator = self.nonce_iterator.wrapping_add(CONTINUOUS_BATCH);
        self.atomic_stats.record_hashes(CONTINUOUS_BATCH as u64);
        self.hashrate_tracker.add_hashes(CONTINUOUS_BATCH as u64);
        MiningStepOutcome::Mined(CONTINUOUS_BATCH as u64)
    }

    /// The worker's life-cycle state.
    pub fn get_status(&self) -> (r: Result<DeviceStatus, DeviceError>)
        ensures
            r matches Ok(s) && s == self.status,
    {
        Ok(self.status)
    }

    /// A statistics snapshot as of the given instant: the tracker folds the
    /// instant's rate into its window averages first, the raw counters are
    /// carried over exactly, the current throughput is the five-second
    /// window average once that window is seeded (else the elapsed-time
    /// average), and the average throughput is the elapsed-time average.
    pub fn stats_snapshot_at(&mut self, now: u64) -> (r: Result<DeviceStats, DeviceError>)
        ensures
            ({
                let ticked = if old(self).hashrate_tracker.tick_applies(now) {
                    old(self).hashrate_tracker.spec_ticked(now)
                } else {
                    old(self).hashrate_tracker
                };
                let elapsed_avg = crate::stats::sat_u64(
                    crate::stats::spec_rate(ticked.total_hashes, ticked.start_time_nanos, now),
                );
                &&& final(self).hashrate_tracker == ticked
                &&& r matches Ok(s) && {
                    &&& s.device_id == old(self).atomic_stats.device_id
                    &&& s.total_hashes == old(self).atomic_stats.total_hashes
                    &&& s.accepted_work == old(self).atomic_stats.accepted_work
                    &&& s.rejected_work == old(self).atomic_stats.rejected_work
                    &&& s.hardware_errors == old(self).atomic_stats.hardware_errors
                    &&& s.current_hashrate as int == (if ticked.avg_5s != 0 {
                        ticked.avg_5s as int
                    } else {
                        elapsed_avg
                    })
                    &&& s.average_hashrate as int == elapsed_avg
                }
            }),
            final(self).atomic_stats == old(self).atomic_stats,
            *final(self) == (SoftwareDevice {
                hashrate_tracker: final(self).hashrate_tracker,
                ..*old(self)
            }),
    {
        self.hashrate_tracker.update_averages_at(now);
        let total_avg: u64 = if now > self.hashrate_tracker.start_time_nanos {
            let elapsed: u64 = now - self.hashrate_tracker.start_time_nanos;
            let wide: u128 = (self.hashrate_tracker.total_hashes as u128) * 1_000_000_000u128 / (
            elapsed as u128);
            if wide > u64::MAX as u128 {
                u64::MAX
            } else {
                wide as u64
            }
        } else {
            0
        };
        let current: u64 = if self.hashrate_tracker.avg_5s != 0 {
            self.hashrate_tracker.avg_5s
        } else {
            total_avg
        };
        Ok(self.atomic_stats.to_device_stats_with_hashrate(current, total_avg))
    }

    /// A statistics snapshot as of now.
    pub fn get_stats(&mut self) -> (r: Result<DeviceStats, DeviceError>)
        ensures
            r matches Ok(s) && {
                &&& s.device_id == old(self).atomic_stats.device_id
                &&& s.total_hashes == old(self).atomic_stats.total_hashes
                &&& s.accepted_work == old(self).atomic_stats.accepted_work
                &&& s.rejected_work == old(self).atomic_stats.rejected_work
                &&& s.hardware_errors == old(self).atomic_stats.hardware_errors
                &&& (final(self).hashrate_tracker.avg_5s != 0
                    ==> s.current_hashrate == final(self).hashrate_tracker.avg_5s)
            },
            exists|now: u64|
                final(self).hashrate_tracker == (if old(self).hashrate_tracker.tick_applies(now) {
                    old(self).hashrate_tracker.spec_ticked(now)
                } else {
                    old(self).hashrate_tracker
                }) && (r matches Ok(s) && s.average_hashrate as int == crate::stats::sat_u64(
                    #[trigger] crate::stats::spec_rate(
                        final(self).hashrate_tracker.total_hashes,
                        final(self).hashrate_tracker.start_time_nanos,
                        now,
                    ),
                )),
            final(self).atomic_stats == old(self).atomic_stats,
            *final(self) == (SoftwareDevice {
                hashrate_tracker: final(self).hashrate_tracker,
                ..*old(self)
            }),
    {
        let now: u64 = now_nanos();
        let r: Result<DeviceStats, DeviceError> = self.stats_snapshot_at(now);
        r
    }

    /// A software worker cannot change its clock; the request is refused.
    pub fn set_frequency(&mut self, frequency: u32) -> (r: Result<(), DeviceError>)
        ensures
            r is Err,
            *final(self) == *old(self),
    {
        Err(
            DeviceError::HardwareError(
                "a software worker cannot adjust a hardware clock".to_owned(),
            ),
        )
    }

    /// A software worker cannot change its supply voltage; the request is
    /// refused.
    pub fn set_voltage(&mut self, voltage: u32) -> (r: Result<(), DeviceError>)
        ensures
            r is Err,
            *final(self) == *old(self),
    {
        Err(
            DeviceError::HardwareError(
                "a software worker cannot adjust a supply voltage".to_owned(),
            ),
        )
    }

    /// Records a fan-speed request in the configuration and information.
    pub fn set_fan_speed(&mut self, speed: u32) -> (r: Result<(), DeviceError>)
        ensures
            r is Ok,
            final(self).config == (DeviceConfig { fan_speed: Some(speed), ..old(self).config }),
            final(self).device_info == (DeviceInfo {
                fan_speed: Some(speed),
                updated_at_nanos: final(self).device_info.updated_at_nanos,
                ..old(self).device_info
            }),
            *final(self) == (SoftwareDevice {
                config: final(self).config,
                device_info: final(self).device_info,
                ..*old(self)
            }),
    {
        self.config.fan_speed = Some(speed);
        self.device_info.fan_speed = Some(speed);
        self.device_info.updated_at_nanos = now_nanos();
        Ok(())
    }

    /// Records a temperature reading, supplied by the host's sensor, in the
    /// worker's information and statistics.
    pub fn update_temperature_reading(&mut self, temp_centi: u32) -> (r: Result<(), DeviceError>)
        ensures
            r is Ok,
            final(self).device_info == (DeviceInfo {
                temperature_centi: Some(temp_centi),
                ..old(self).device_info
            }),
            final(self).atomic_stats == (AtomicStats {
                temperature_centi: temp_centi,
                ..old(self).atomic_stats
            }),
            *final(self) == (SoftwareDevice {
                device_info: final(self).device_info,
                atomic_stats: final(self).atomic_stats,
                ..*old(self)
            }),
    {
        self.device_info.update_temperature(temp_centi);
        self.atomic_stats.update_temperature(temp_centi);
        Ok(())
    }

    /// Resets the worker: zeroes the statistics, commits any batched scratch
    /// counts into the fresh cell, advances the work generation and purges
    /// everything below it, and restarts the clock.
    pub fn reset(&mut self) -> (r: Result<(), DeviceError>)
        requires
            old(self).wf(),
            old(self).work_queue@.version < usize::MAX,
            old(self).batch_updater.local_hashes <= u64::MAX,
            old(self).batch_updater.local_accepted <= u64::MAX,
            old(self).batch_updater.local_rejected <= u64::MAX,
            old(self).batch_updater.local_errors <= u64::MAX,
        ensures
            r is Ok,
            final(self).wf(),
            final(self).atomic_stats.total_hashes == old(self).batch_updater.local_hashes,
            final(self).atomic_stats.accepted_work == old(self).batch_updater.local_accepted,
            final(self).atomic_stats.rejected_work == old(self).batch_updater.local_rejected,
            final(self).atomic_stats.hardware_errors == old(self).batch_updater.local_errors,
            old(self).batch_updater.drained() ==> {
                &&& final(self).atomic_stats.total_hashes == 0
                &&& final(self).atomic_stats.accepted_work == 0
                &&& final(self).atomic_stats.rejected_work == 0
                &&& final(self).atomic_stats.hardware_errors == 0
            },
            final(self).atomic_stats.temperature_centi == 0,
            final(self).atomic_stats.power_centi == 0,
            final(self).batch_updater.drained(),
            final(self).work_queue@.version == old(self).work_queue@.version + 1,
            final(self).work_queue@.pending == LockFreeWorkQueue::spec_purged(
                old(self).work_queue@.pending,
                old(self).work_queue@.version + 1,
            ),
            final(self).start_time_nanos is Some,
    {
        self.atomic_stats.reset();
        self.batch_updater.force_flush(&mut self.atomic_stats);
        let new_version: usize = self.work_queue.update_work_version();
        let _cleared: usize = self.work_queue.clear_stale_work(new_version);
        self.start_time_nanos = Some(now_nanos());
        Ok(())
    }

    /// Whether the worker counts as healthy: it is running or idle, any
    /// known temperature stays below the safety ceiling, and hardware errors
    /// stay below a tenth of the evaluated results.
    pub open spec fn spec_healthy(&self) -> bool {
        &&& (self.status is Running || self.status is Idle)
        &&& (self.atomic_stats.temperature_centi != 0 ==> self.atomic_stats.temperature_centi
            < 9000)
        &&& (self.atomic_stats.hardware_errors == 0 || (self.atomic_stats.hardware_errors * 10
            < self.atomic_stats.accepted_work + self.atomic_stats.rejected_work
            + self.atomic_stats.hardware_errors))
    }

    /// Reports the worker's health.
    pub fn health_check(&self) -> (r: Result<bool, DeviceError>)
        ensures
            r matches Ok(h) && h == self.spec_healthy(),
    {
        let status_ok: bool = match self.status {
            DeviceStatus::Running => true,
            DeviceStatus::Idle => true,
            DeviceStatus::Uninitialized => false,
        };
        let temp_ok: bool = self.atomic_stats.temperature_centi == 0
            || self.atomic_stats.temperature_centi < 9000;
        let errors: u64 = self.atomic_stats.hardware_errors;
        let work_total: u128 = (self.atomic_stats.accepted_work as u128) + (
        self.atomic_stats.rejected_work as u128) + (errors as u128);
        let error_ok: bool = errors == 0 || (errors as u128) * 10 < work_total;
        Ok(status_ok && temp_ok && error_ok)
    }
}

} // verus!
