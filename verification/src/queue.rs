//! Bounded lock-free job queue with staleness tracking.
//!
//! Pending work lives in a bounded queue so that backlog can never grow
//! without limit: enqueueing past capacity is a rejection, not a wait.
//! Completed results live in an unbounded queue and rely on timely draining.
//! A monotonic generation counter recognises stale work without any
//! back-references from jobs to the queue.

use vstd::prelude::*;

use std::sync::Arc;

use crate::work::{MiningResult, ResultView, Work, WorkView};

verus! {

/// Largest capacity a queue may be created with.
pub const MAX_QUEUE_CAPACITY: usize = 0x1000_0000;

// ----------------------------------------------------------------------------
// Trusted view of the crossbeam queues.
// ----------------------------------------------------------------------------

#[verifier::external_type_specification]
#[verifier::external_body]
#[verifier::reject_recursive_types(T)]
pub struct ExArrayQueue<T>(crossbeam::queue::ArrayQueue<T>);

#[verifier::external_type_specification]
#[verifier::external_body]
#[verifier::reject_recursive_types(T)]
pub struct ExSegQueue<T>(crossbeam::queue::SegQueue<T>);

/// What the bounded pending queue holds, oldest first.
pub uninterp spec fn array_queue_items(q: crossbeam::queue::ArrayQueue<Arc<Work>>) -> Seq<WorkView>;

/// The fixed capacity the bounded pending queue was created with.
pub uninterp spec fn array_queue_capacity(q: crossbeam::queue::ArrayQueue<Arc<Work>>) -> nat;

/// What the unbounded completed queue holds, oldest first.
pub uninterp spec fn seg_queue_items(q: crossbeam::queue::SegQueue<MiningResult>) -> Seq<ResultView>;

/// Relies on `crossbeam::queue::ArrayQueue::new`: an empty queue with the
/// given capacity.  `new` panics on a zero or outsized capacity, which the
/// precondition rules out.
#[verifier::external_body]
fn aq_new(cap: usize) -> (q: crossbeam::queue::ArrayQueue<Arc<Work>>)
    requires
        1 <= cap <= MAX_QUEUE_CAPACITY,
    ensures
        array_queue_items(q) == Seq::<WorkView>::empty(),
        array_queue_capacity(q) == cap as nat,
{
    crossbeam::queue::ArrayQueue::new(cap)
}

/// Relies on `crossbeam::queue::ArrayQueue::push`: appends the element when
/// the queue is not full and hands it back unchanged when it is.
#[verifier::external_body]
fn aq_push(q: &mut crossbeam::queue::ArrayQueue<Arc<Work>>, w: Arc<Work>) -> (r: Result<
    (),
    Arc<Work>,
>)
    ensures
        array_queue_capacity(*final(q)) == array_queue_capacity(*old(q)),
        match r {
            Ok(()) => {
                &&& array_queue_items(*old(q)).len() < array_queue_capacity(*old(q))
                &&& array_queue_items(*final(q)) == array_queue_items(*old(q)).push(w@)
            },
            Err(back) => {
                &&& back@ == w@
                &&& array_queue_items(*old(q)).len() == array_queue_capacity(*old(q))
                &&& array_queue_items(*final(q)) == array_queue_items(*old(q))
            },
        },
{
    q.push(w)
}

/// Relies on `crossbeam::queue::ArrayQueue::pop`: removes and returns the
/// oldest element, or returns nothing when the queue is empty.
#[verifier::external_body]
fn aq_pop(q: &mut crossbeam::queue::ArrayQueue<Arc<Work>>) -> (r: Option<Arc<Work>>)
    ensures
        array_queue_capacity(*final(q)) == array_queue_capacity(*old(q)),
        match r {
            Some(w) => {
                &&& array_queue_items(*old(q)).len() > 0
                &&& w@ == array_queue_items(*old(q))[0]
                &&& array_queue_items(*final(q)) == array_queue_items(*old(q)).drop_first()
            },
            None => {
                &&& array_queue_items(*old(q)).len() == 0
                &&& array_queue_items(*final(q)) == array_queue_items(*old(q))
            },
        },
{
    q.pop()
}

/// Relies on `crossbeam::queue::ArrayQueue::len`: the number of elements held.
#[verifier::external_body]
fn aq_len(q: &crossbeam::queue::ArrayQueue<Arc<Work>>) -> (r: usize)
    ensures
        r as nat == array_queue_items(*q).len(),
{
    q.len()
}

/// Relies on `crossbeam::queue::SegQueue::new`: an empty unbounded queue.
#[verifier::external_body]
fn sq_new() -> (q: crossbeam::queue::SegQueue<MiningResult>)
    ensures
        seg_queue_items(q) == Seq::<ResultView>::empty(),
{
    crossbeam::queue::SegQueue::new()
}

/// Relies on `crossbeam::queue::SegQueue::push`: appends the element; an
/// unbounded queue never rejects.
#[verifier::external_body]
fn sq_push(q: &mut crossbeam::queue::SegQueue<MiningResult>, x: MiningResult)
    ensures
        seg_queue_items(*final(q)) == seg_queue_items(*old(q)).push(x@),
{
    q.push(x)
}

/// Relies on `crossbeam::queue::SegQueue::pop`: removes and returns the oldest
/// element, or returns nothing when the queue is empty.
#[verifier::external_body]
fn sq_pop(q: &mut crossbeam::queue::SegQueue<MiningResult>) -> (r: Option<MiningResult>)
    ensures
        match r {
            Some(x) => {
                &&& seg_queue_items(*old(q)).len() > 0
                &&& x@ == seg_queue_items(*old(q))[0]
                &&& seg_queue_items(*final(q)) == seg_queue_items(*old(q)).drop_first()
            },
            None => {
                &&& seg_queue_items(*old(q)).len() == 0
                &&& seg_queue_items(*final(q)) == seg_queue_items(*old(q))
            },
        },
{
    q.pop()
}

/// Relies on `crossbeam::queue::SegQueue::len`: the number of elements held.
#[verifier::external_body]
fn sq_len(q: &crossbeam::queue::SegQueue<MiningResult>) -> (r: usize)
    ensures
        r as nat == seg_queue_items(*q).len(),
{
    q.len()
}

/// Relies on `std::sync::Arc::clone`: a cloned handle designates the same
/// value as the original.
#[verifier::external_body]
pub(crate) fn arc_clone<T>(a: &Arc<T>) -> (r: Arc<T>)
    ensures
        r == *a,
{
    Arc::clone(a)
}

// ----------------------------------------------------------------------------
// The verified queue.
// ----------------------------------------------------------------------------

/// Mathematical state of a work queue.
#[verifier::ext_equal]
pub ghost struct QueueView {
    /// Pending jobs, oldest first.
    pub pending: Seq<WorkView>,
    /// Completed results, oldest first.
    pub completed: Seq<ResultView>,
    /// Jobs enqueued and not yet resolved by a submitted result.
    pub active_count: nat,
    /// Jobs ever accepted by `enqueue_work`.
    pub total_enqueued: nat,
    /// Jobs ever handed out by `dequeue_work`.
    pub total_dequeued: nat,
    /// Enqueue attempts rejected because the queue was full.
    pub queue_full_count: nat,
    /// Current work generation.
    pub version: nat,
    /// Fixed capacity of the pending store.
    pub capacity: nat,
}

/// Bounded queue of pending jobs plus unbounded store of completed results,
/// with counters and a work-generation version for staleness checks.
pub struct LockFreeWorkQueue {
    pending_work: crossbeam::queue::ArrayQueue<Arc<Work>>,
    completed_work: crossbeam::queue::SegQueue<MiningResult>,
    active_work_count: usize,
    total_enqueued: usize,
    total_dequeued: usize,
    queue_full_count: usize,
    current_work_version: usize,
    max_queue_size: usize,
}

/// Point-in-time snapshot of a queue's counters.
#[derive(Debug, Clone)]
pub struct WorkQueueStats {
    pub pending_count: usize,
    pub active_count: usize,
    pub completed_count: usize,
    pub total_enqueued: usize,
    pub total_dequeued: usize,
    pub queue_full_count: usize,
    pub current_version: usize,
    pub max_queue_size: usize,
}

impl View for LockFreeWorkQueue {
    type V = QueueView;

    closed spec fn view(&self) -> QueueView {
        QueueView {
            pending: array_queue_items(self.pending_work),
            completed: seg_queue_items(self.completed_work),
            active_count: self.active_work_count as nat,
            total_enqueued: self.total_enqueued as nat,
            total_dequeued: self.total_dequeued as nat,
            queue_full_count: self.queue_full_count as nat,
            version: self.current_work_version as nat,
            capacity: self.max_queue_size as nat,
        }
    }
}

impl LockFreeWorkQueue {
    /// A well-formed queue: the bounded store has the configured capacity and
    /// never holds more than it.
    pub closed spec fn wf(&self) -> bool {
        &&& 1 <= self.max_queue_size <= MAX_QUEUE_CAPACITY
        &&& array_queue_capacity(self.pending_work) == self.max_queue_size as nat
        &&& array_queue_items(self.pending_work).len() <= self.max_queue_size as nat
    }

    /// Creates an empty queue whose pending store holds at most
    /// `max_queue_size` jobs.
    pub fn new(max_queue_size: usize) -> (q: LockFreeWorkQueue)
        requires
            1 <= max_queue_size <= MAX_QUEUE_CAPACITY,
        ensures
            q.wf(),
            q@ == (QueueView {
                pending: Seq::<WorkView>::empty(),
                completed: Seq::<ResultView>::empty(),
                active_count: 0nat,
                total_enqueued: 0nat,
                total_dequeued: 0nat,
                queue_full_count: 0nat,
                version: 0nat,
                capacity: max_queue_size as nat,
            }),
    {
        LockFreeWorkQueue {
            pending_work: aq_new(max_queue_size),
            completed_work: sq_new(),
            active_work_count: 0,
            total_enqueued: 0,
            total_dequeued: 0,
            queue_full_count: 0,
            current_work_version: 0,
            max_queue_size,
        }
    }

    /// Whether an enqueue on a queue in state `q` is accepted.
    pub open spec fn enqueue_accepted(q: QueueView) -> bool {
        q.pending.len() < q.capacity
    }

    /// State after one enqueue of `w` on a queue in state `q`.
    pub open spec fn spec_enqueue(q: QueueView, w: WorkView) -> QueueView {
        if Self::enqueue_accepted(q) {
            QueueView {
                pending: q.pending.push(w),
                active_count: (q.active_count + 1) as nat,
                total_enqueued: (q.total_enqueued + 1) as nat,
                ..q
            }
        } else {
            QueueView { queue_full_count: (q.queue_full_count + 1) as nat, ..q }
        }
    }

    /// Non-blocking enqueue.  When the pending store is full the job is handed
    /// back to the caller and the rejection is counted; nothing is dropped
    /// silently.
    pub fn enqueue_work(&mut self, work: Arc<Work>) -> (r: Result<(), Arc<Work>>)
        requires
            old(self).wf(),
            old(self)@.total_enqueued < usize::MAX,
            old(self)@.active_count < usize::MAX,
            old(self)@.queue_full_count < usize::MAX,
        ensures
            final(self).wf(),
            final(self)@ == Self::spec_enqueue(old(self)@, work@),
            r is Ok <==> Self::enqueue_accepted(old(self)@),
            r matches Err(back) ==> back@ == work@,
    {
        match aq_push(&mut self.pending_work, work) {
            Ok(()) => {
                self.active_work_count = self.active_work_count + 1;
                self.total_enqueued = self.total_enqueued + 1;
                Ok(())
            },
            Err(back) => {
                self.queue_full_count = self.queue_full_count + 1;
                Err(back)
            },
        }
    }

    /// State and returned job after one dequeue on a queue in state `q`.
    pub open spec fn spec_dequeue(q: QueueView) -> (QueueView, Option<WorkView>) {
        if q.pending.len() > 0 {
            (
                QueueView {
                    pending: q.pending.drop_first(),
                    total_dequeued: (q.total_dequeued + 1) as nat,
                    ..q
                },
                Some(q.pending[0]),
            )
        } else {
            (q, None)
        }
    }

    /// Non-blocking dequeue: hands out the oldest pending job, or nothing.
    pub fn dequeue_work(&mut self) -> (r: Option<Arc<Work>>)
        requires
            old(self).wf(),
            old(self)@.total_dequeued < usize::MAX,
        ensures
            final(self).wf(),
            final(self)@ == Self::spec_dequeue(old(self)@).0,
            match r {
                Some(w) => Self::spec_dequeue(old(self)@).1 == Some(w@),
                None => Self::spec_dequeue(old(self)@).1 is None,
            },
    {
        match aq_pop(&mut self.pending_work) {
            Some(w) => {
                self.total_dequeued = self.total_dequeued + 1;
                Some(w)
            },
            None => None,
        }
    }

    /// Records a completed result.  The completed store is unbounded so that
    /// no result is ever dropped; the active-work count goes down by one,
    /// stopping at zero.
    pub fn submit_result(&mut self, result: MiningResult)
        requires
            old(self).wf(),
        ensures
            final(self).wf(),
            final(self)@ == (QueueView {
                completed: old(self)@.completed.push(result@),
                active_count: if old(self)@.active_count > 0 {
                    (old(self)@.active_count - 1) as nat
                } else {
                    0nat
                },
                ..old(self)@
            }),
    {
        sq_push(&mut self.completed_work, result);
        if self.active_work_count > 0 {
            self.active_work_count = self.active_work_count - 1;
        }
    }

    /// Takes one completed result, oldest first.
    pub fn get_result(&mut self) -> (r: Option<MiningResult>)
        requires
            old(self).wf(),
        ensures
            final(self).wf(),
            match r {
                Some(x) => {
                    &&& old(self)@.completed.len() > 0
                    &&& x@ == old(self)@.completed[0]
                    &&& final(self)@ == (QueueView {
                        completed: old(self)@.completed.drop_first(),
                        ..old(self)@
                    })
                },
                None => {
                    &&& old(self)@.completed.len() == 0
                    &&& final(self)@ == old(self)@
                },
            },
    {
        sq_pop(&mut self.completed_work)
    }

    /// Takes up to `max_count` completed results, oldest first.
    pub fn get_results(&mut self, max_count: usize) -> (results: Vec<MiningResult>)
        requires
            old(self).wf(),
        ensures
            final(self).wf(),
            results@.len() == vstd::math::min(max_count as int, old(self)@.completed.len() as int),
            results@.map_values(|m: MiningResult| m@) == old(self)@.completed.take(
                results@.len() as int,
            ),
            final(self)@ == (QueueView {
                completed: old(self)@.completed.skip(results@.len() as int),
                ..old(self)@
            }),
    {
        let mut results: Vec<MiningResult> = Vec::new();
        let ghost orig: Seq<ResultView> = self@.completed;
        let mut i: usize = 0;
        while i < max_count
            invariant
                self.wf(),
                i <= max_count,
                i as int == results@.len(),
                i <= orig.len(),
                results@.map_values(|m: MiningResult| m@) =~= orig.take(i as int),
                self@ == (QueueView { completed: orig.skip(i as int), ..old(self)@ }),
                old(self)@.completed == orig,
            decreases max_count - i,
        {
            match sq_pop(&mut self.completed_work) {
                Some(x) => {
                    results.push(x);
                    proof {
                        assert(orig.skip(i as int)[0] == orig[i as int]);
                        assert(orig.skip(i as int).drop_first() =~= orig.skip(i + 1));
                        assert(results@.map_values(|m: MiningResult| m@) =~= orig.take(i + 1));
                    }
                    i = i + 1;
                },
                None => {
                    proof {
                        assert(orig.skip(i as int).len() == 0);
                        assert(orig.skip(i as int) =~= orig.take(i as int).skip(i as int).add(
                            orig.skip(i as int),
                        ));
                    }
                    return results;
                },
            }
        }
        results
    }

    /// Advances the work generation and returns the new version.
    pub fn update_work_version(&mut self) -> (new_version: usize)
        requires
            old(self).wf(),
            old(self)@.version < usize::MAX,
        ensures
            final(self).wf(),
            new_version as nat == old(self)@.version + 1,
            final(self)@ == (QueueView { version: old(self)@.version + 1, ..old(self)@ }),
    {
        self.current_work_version = self.current_work_version + 1;
        self.current_work_version
    }

    /// The current work generation.
    pub fn current_version(&self) -> (v: usize)
        ensures
            v as nat == self@.version,
    {
        self.current_work_version
    }

    /// Whether a job survives a purge at `valid_version`.
    pub open spec fn job_current(w: WorkView, valid_version: nat) -> bool {
        w.version as nat >= valid_version
    }

    /// The pending jobs that survive a purge at `valid_version`: exactly those
    /// whose generation is not below it, in their original order.
    pub open spec fn spec_purged(pending: Seq<WorkView>, valid_version: nat) -> Seq<WorkView> {
        pending.filter(|w: WorkView| Self::job_current(w, valid_version))
    }

    /// Removes every pending job whose generation is below `valid_version`
    /// and returns how many were removed; surviving jobs stay queued in their
    /// original order.  The active-work count goes down by the number removed,
    /// stopping at zero.
    pub fn clear_stale_work(&mut self, valid_version: usize) -> (cleared: usize)
        requires
            old(self).wf(),
        ensures
            final(self).wf(),
            final(self)@ == (QueueView {
                pending: Self::spec_purged(old(self)@.pending, valid_version as nat),
                active_count: if old(self)@.active_count >= cleared as nat {
                    (old(self)@.active_count - cleared as nat) as nat
                } else {
                    0nat
                },
                ..old(self)@
            }),
            cleared as nat == old(self)@.pending.len() - Self::spec_purged(
                old(self)@.pending,
                valid_version as nat,
            ).len(),
    {
        let ghost orig: Seq<WorkView> = self@.pending;
        let ghost vv: nat = valid_version as nat;
        let mut kept: Vec<Arc<Work>> = Vec::new();
        let mut cleared: usize = 0;
        let ghost mut i: int = 0;

        proof {
            broadcast use vstd::seq_lib::group_filter_ensures;

            assert(Self::spec_purged(orig.take(0), vv) =~= Seq::<WorkView>::empty());
        }

        // Drain the pending store, keeping only current jobs.
        loop
            invariant
                self.wf(),
                0 <= i <= orig.len(),
                orig.len() <= MAX_QUEUE_CAPACITY,
                vv == valid_version as nat,
                self@ == (QueueView { pending: orig.skip(i), ..old(self)@ }),
                old(self)@.pending == orig,
                kept@.map_values(|a: Arc<Work>| a@) == Self::spec_purged(orig.take(i), vv),
                cleared as int == i - kept@.len(),
                kept@.len() <= i,
            ensures
                self.wf(),
                self@ == (QueueView { pending: orig.skip(orig.len() as int), ..old(self)@ }),
                old(self)@.pending == orig,
                kept@.map_values(|a: Arc<Work>| a@) == Self::spec_purged(orig, vv),
                cleared as int == orig.len() - Self::spec_purged(orig, vv).len(),
                orig.len() <= MAX_QUEUE_CAPACITY,
                kept@.len() == Self::spec_purged(orig, vv).len(),
            decreases orig.len() - i,
        {
            match aq_pop(&mut self.pending_work) {
                Some(w) => {
                    let ghost kept_before: Seq<Arc<Work>> = kept@;
                    proof {
                        reveal_with_fuel(Seq::filter, 2);
                        assert(orig.skip(i)[0] == orig[i]);
                        assert(w@ == orig[i]);
                        assert(orig.skip(i).drop_first() =~= orig.skip(i + 1));
                        assert(orig.take(i + 1).drop_last() =~= orig.take(i));
                        assert(orig.take(i + 1).last() == orig[i]);
                        assert(orig.take(i + 1).len() == i + 1);
                        assert(Self::spec_purged(orig.take(i + 1), vv) == (if Self::job_current(
                            orig[i],
                            vv,
                        ) {
                            Self::spec_purged(orig.take(i), vv).push(orig[i])
                        } else {
                            Self::spec_purged(orig.take(i), vv)
                        }));
                    }
                    if w.version >= valid_version as u64 {
                        kept.push(w);
                        proof {
                            assert(Self::job_current(orig[i], vv));
                            assert(kept@ == kept_before.push(w));
                            assert(kept@.map_values(|a: Arc<Work>| a@) =~= kept_before.map_values(
                                |a: Arc<Work>| a@,
                            ).push(w@));
                        }
                    } else {
                        cleared = cleared + 1;
                        proof {
                            assert(!Self::job_current(orig[i], vv));
                        }
                    }
                    proof {
                        i = i + 1;
                    }
                },
                None => {
                    proof {
                        assert(orig.skip(i).len() == 0);
                        assert(orig.take(i) =~= orig);
                    }
                    break;
                },
            }
        }

        // Re-insert the surviving jobs; they all fit because no more jobs
        // survive than were drained from the bounded store.
        let ghost survivors: Seq<WorkView> = Self::spec_purged(orig, vv);
        let n: usize = kept.len();
        let mut j: usize = 0;
        proof {
            assert(survivors.take(0) =~= Seq::<WorkView>::empty());
            assert(orig.skip(orig.len() as int) =~= survivors.take(0));
            assert(self@ =~= (QueueView { pending: survivors.take(0), ..old(self)@ }));
        }
        while j < n
            invariant
                self.wf(),
                n == kept@.len(),
                j <= n,
                survivors == Self::spec_purged(orig, vv),
                kept@.map_values(|a: Arc<Work>| a@) == survivors,
                survivors.len() <= orig.len() <= self@.capacity,
                self@ == (QueueView { pending: survivors.take(j as int), ..old(self)@ }),
                old(self)@.pending == orig,
            decreases n - j,
        {
            let w: Arc<Work> = arc_clone(&kept[j]);
            proof {
                assert(kept@.map_values(|a: Arc<Work>| a@)[j as int] == survivors[j as int]);
                assert(self@.pending.len() == j);
            }
            match aq_push(&mut self.pending_work, w) {
                Ok(()) => {
                    proof {
                        assert(survivors.take(j as int).push(survivors[j as int]) =~= survivors.take(
                            j + 1,
                        ));
                    }
                },
                Err(_) => {
                    // The store was drained above, so there is room for every
                    // survivor; a rejection here cannot happen.
                    proof {
                        assert(false);
                    }
                },
            }
            j = j + 1;
        }
        proof {
            assert(survivors.take(n as int) =~= survivors);
        }

        // One decrement per removed job, never dropping below zero.
        if self.active_work_count >= cleared {
            self.active_work_count = self.active_work_count - cleared;
        } else {
            self.active_work_count = 0;
        }
        cleared
    }

    /// A snapshot of the queue's counters.
    pub fn get_stats(&self) -> (stats: WorkQueueStats)
        requires
            self.wf(),
        ensures
            stats.pending_count as nat == self@.pending.len(),
            stats.active_count as nat == self@.active_count,
            stats.completed_count as nat == self@.completed.len(),
            stats.total_enqueued as nat == self@.total_enqueued,
            stats.total_dequeued as nat == self@.total_dequeued,
            stats.queue_full_count as nat == self@.queue_full_count,
            stats.current_version as nat == self@.version,
            stats.max_queue_size as nat == self@.capacity,
    {
        WorkQueueStats {
            pending_count: aq_len(&self.pending_work),
            active_count: self.active_work_count,
            completed_count: sq_len(&self.completed_work),
            total_enqueued: self.total_enqueued,
            total_dequeued: self.total_dequeued,
            queue_full_count: self.queue_full_count,
            current_version: self.current_work_version,
            max_queue_size: self.max_queue_size,
        }
    }

    /// Load-shedding signal: whether the pending store is filled beyond
    /// `threshold_percent` per cent of its capacity.
    pub fn is_nearly_full(&self, threshold_percent: u64) -> (r: bool)
        requires
            self.wf(),
            threshold_percent <= 100,
        ensures
            r == (self@.pending.len() * 100 > self@.capacity * threshold_percent as nat),
    {
        let current_size: usize = aq_len(&self.pending_work);
        proof {
            assert(self@.pending.len() <= MAX_QUEUE_CAPACITY as nat);
            assert(self@.capacity <= MAX_QUEUE_CAPACITY as nat);
            assert((self.max_queue_size as u64) * threshold_percent <= 0x1000_0000u64
                * 100) by (nonlinear_arith)
                requires
                    self.max_queue_size as u64 <= 0x1000_0000u64,
                    threshold_percent <= 100,
            ;
        }
        (current_size as u64) * 100 > (self.max_queue_size as u64) * threshold_percent
    }

    /// The queue state a fresh queue of the given capacity starts in.
    pub open spec fn fresh_view(capacity: nat) -> QueueView {
        QueueView {
            pending: Seq::<WorkView>::empty(),
            completed: Seq::<ResultView>::empty(),
            active_count: 0nat,
            total_enqueued: 0nat,
            total_dequeued: 0nat,
            queue_full_count: 0nat,
            version: 0nat,
            capacity: capacity,
        }
    }

    /// State after enqueueing a whole sequence of jobs, first to last.
    pub open spec fn spec_enqueue_all(q: QueueView, jobs: Seq<WorkView>) -> QueueView
        decreases jobs.len(),
    {
        if jobs.len() == 0 {
            q
        } else {
            Self::spec_enqueue_all(Self::spec_enqueue(q, jobs[0]), jobs.drop_first())
        }
    }

    /// Enqueueing a sequence and then one more job is one more enqueue after
    /// the sequence.
    pub proof fn lemma_enqueue_all_push(q: QueueView, jobs: Seq<WorkView>, w: WorkView)
        ensures
            Self::spec_enqueue_all(q, jobs.push(w)) == Self::spec_enqueue(
                Self::spec_enqueue_all(q, jobs),
                w,
            ),
        decreases jobs.len(),
    {
        if jobs.len() == 0 {
            assert(jobs.push(w)[0] == w);
            assert(jobs.push(w).drop_first() =~= Seq::<WorkView>::empty());
            assert(Self::spec_enqueue_all(q, jobs) == q);
            assert(Self::spec_enqueue_all(q, jobs.push(w)) == Self::spec_enqueue_all(
                Self::spec_enqueue(q, w),
                jobs.push(w).drop_first(),
            ));
            assert(Self::spec_enqueue_all(Self::spec_enqueue(q, w), jobs.push(w).drop_first())
                == Self::spec_enqueue(q, w));
        } else {
            assert(jobs.push(w)[0] == jobs[0]);
            assert(jobs.push(w).drop_first() =~= jobs.drop_first().push(w));
            Self::lemma_enqueue_all_push(Self::spec_enqueue(q, jobs[0]), jobs.drop_first(), w);
            assert(Self::spec_enqueue_all(q, jobs.push(w)) == Self::spec_enqueue_all(
                Self::spec_enqueue(q, jobs[0]),
                jobs.drop_first().push(w),
            ));
            assert(Self::spec_enqueue_all(q, jobs) == Self::spec_enqueue_all(
                Self::spec_enqueue(q, jobs[0]),
                jobs.drop_first(),
            ));
        }
    }

    /// While there is room for every job, every enqueue is accepted: the jobs
    /// all end up pending, in order, with no rejection counted.
    pub proof fn lemma_enqueue_all_within_capacity(q: QueueView, jobs: Seq<WorkView>)
        requires
            q.pending.len() + jobs.len() <= q.capacity,
        ensures
            Self::spec_enqueue_all(q, jobs) == (QueueView {
                pending: q.pending + jobs,
                active_count: (q.active_count + jobs.len()) as nat,
                total_enqueued: (q.total_enqueued + jobs.len()) as nat,
                ..q
            }),
        decreases jobs.len(),
    {
        if jobs.len() == 0 {
            assert(q.pending + jobs =~= q.pending);
            assert(Self::spec_enqueue_all(q, jobs) =~= (QueueView {
                pending: q.pending + jobs,
                active_count: (q.active_count + jobs.len()) as nat,
                total_enqueued: (q.total_enqueued + jobs.len()) as nat,
                ..q
            }));
        } else {
            let q1 = Self::spec_enqueue(q, jobs[0]);
            assert(Self::enqueue_accepted(q));
            Self::lemma_enqueue_all_within_capacity(q1, jobs.drop_first());
            assert(q.pending.push(jobs[0]) + jobs.drop_first() =~= q.pending + jobs);
            assert(Self::spec_enqueue_all(q, jobs) =~= (QueueView {
                pending: q.pending + jobs,
                active_count: (q.active_count + jobs.len()) as nat,
                total_enqueued: (q.total_enqueued + jobs.len()) as nat,
                ..q
            }));
        }
    }

    /// Law: for every capacity `C`, enqueueing `C + 1` jobs on a fresh queue
    /// before any dequeue accepts exactly the first `C` of them and rejects
    /// exactly the last one, leaving the full-rejection counter at one.
    pub proof fn lemma_overfill_rejects_exactly_one(capacity: nat, jobs: Seq<WorkView>)
        requires
            1 <= capacity,
            jobs.len() == capacity + 1,
        ensures
            ({
                let q = Self::spec_enqueue_all(Self::fresh_view(capacity), jobs);
                &&& q.queue_full_count == 1
                &&& q.total_enqueued == capacity
                &&& q.pending == jobs.drop_last()
                &&& !Self::enqueue_accepted(
                    Self::spec_enqueue_all(Self::fresh_view(capacity), jobs.drop_last()),
                )
            }),
    {
        let q0 = Self::fresh_view(capacity);
        let first = jobs.drop_last();
        Self::lemma_enqueue_all_within_capacity(q0, first);
        let q1 = Self::spec_enqueue_all(q0, first);
        assert(q1.pending =~= first);
        assert(jobs =~= first.push(jobs.last()));
        Self::lemma_enqueue_all_push(q0, first, jobs.last());
        assert(!Self::enqueue_accepted(q1));
    }

    /// Law: an accepted enqueue appends the job and keeps every other pending
    /// job; a dequeue hands out the oldest pending job and keeps the rest.
    /// Together no job is duplicated or lost: a dequeue right after an
    /// accepted enqueue on a previously empty queue returns that very job.
    pub proof fn lemma_enqueue_dequeue_conserves_jobs(q: QueueView, w: WorkView)
        requires
            Self::enqueue_accepted(q),
        ensures
            ({
                let q1 = Self::spec_enqueue(q, w);
                let (q2, r) = Self::spec_dequeue(q1);
                &&& q1.pending.to_multiset() == q.pending.to_multiset().insert(w)
                &&& r is Some
                &&& q2.pending.to_multiset().insert(r->Some_0) == q1.pending.to_multiset()
                &&& (q.pending.len() == 0 ==> r == Some(w) && q2.pending.to_multiset()
                    == q.pending.to_multiset())
            }),
    {
        broadcast use vstd::seq_lib::group_to_multiset_ensures;

        let q1 = Self::spec_enqueue(q, w);
        let (q2, r) = Self::spec_dequeue(q1);
        assert(q1.pending == q.pending.push(w));
        assert(q1.pending.to_multiset() =~= q.pending.to_multiset().insert(w));
        assert(q2.pending == q1.pending.drop_first());
        assert(q1.pending.drop_first() =~= q1.pending.remove(0));
        assert(q2.pending.to_multiset() =~= q1.pending.to_multiset().remove(q1.pending[0]));
        assert(q1.pending.to_multiset().contains(q1.pending[0]));
        assert(q2.pending.to_multiset().insert(r->Some_0) =~= q1.pending.to_multiset());
        if q.pending.len() == 0 {
            assert(q1.pending[0] == w);
            assert(q2.pending =~= q.pending);
        }
    }
}

impl LockFreeWorkQueue {
    /// State after `k` dequeues on a queue in state `q`.
    pub open spec fn spec_dequeue_all(q: QueueView, k: nat) -> QueueView
        decreases k,
    {
        if k == 0 {
            q
        } else {
            Self::spec_dequeue_all(Self::spec_dequeue(q).0, (k - 1) as nat)
        }
    }

    /// Dequeueing `k` of at least `k` pending jobs hands out exactly the
    /// first `k`, counts each of them once, and touches nothing else.
    pub proof fn lemma_dequeue_all_drains(q: QueueView, k: nat)
        requires
            k <= q.pending.len(),
        ensures
            Self::spec_dequeue_all(q, k) == (QueueView {
                pending: q.pending.skip(k as int),
                total_dequeued: (q.total_dequeued + k) as nat,
                ..q
            }),
        decreases k,
    {
        if k == 0 {
            assert(q.pending.skip(0) =~= q.pending);
            assert(Self::spec_dequeue_all(q, k) =~= (QueueView {
                pending: q.pending.skip(0),
                total_dequeued: (q.total_dequeued + 0) as nat,
                ..q
            }));
        } else {
            let q1 = Self::spec_dequeue(q).0;
            assert(q1.pending == q.pending.drop_first());
            Self::lemma_dequeue_all_drains(q1, (k - 1) as nat);
            assert(q.pending.drop_first().skip(k - 1) =~= q.pending.skip(k as int));
            assert(Self::spec_dequeue_all(q, k) =~= (QueueView {
                pending: q.pending.skip(k as int),
                total_dequeued: (q.total_dequeued + k) as nat,
                ..q
            }));
        }
    }

    /// Law: producing and then consuming `K` jobs through a queue with room
    /// for them counts every job exactly once on each side — `K` enqueued,
    /// `K` dequeued, nothing lost or duplicated — and leaves the queue empty.
    pub proof fn lemma_every_job_counted_once(capacity: nat, jobs: Seq<WorkView>)
        requires
            jobs.len() <= capacity,
        ensures
            ({
                let filled = Self::spec_enqueue_all(Self::fresh_view(capacity), jobs);
                let drained = Self::spec_dequeue_all(filled, jobs.len());
                &&& filled.total_enqueued == jobs.len()
                &&& filled.pending == jobs
                &&& filled.queue_full_count == 0
                &&& drained.total_enqueued == jobs.len()
                &&& drained.total_dequeued == jobs.len()
                &&& drained.pending.len() == 0
            }),
    {
        let q0 = Self::fresh_view(capacity);
        Self::lemma_enqueue_all_within_capacity(q0, jobs);
        let filled = Self::spec_enqueue_all(q0, jobs);
        assert(filled.pending =~= jobs);
        Self::lemma_dequeue_all_drains(filled, jobs.len());
        assert(filled.pending.skip(jobs.len() as int).len() == 0);
    }
}

} // verus!
