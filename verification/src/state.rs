//! Shared pool state: the counters, owned jointly by the pool handle and
//! every worker, that describe queue depth, running jobs, the live and
//! target worker counts, and the failure tally.
//!
//! Each method is one atomic transition of the pool's bookkeeping; an
//! embedding serializes calls with a single lock, so sequential contracts
//! here describe exactly what any observer of the shared state can see.
//! Two ledger fields, `submitted_count` and `completed_count`, record how
//! many jobs ever entered and left the pool; together with `queued_count`
//! and `active_count` they form a conservation law: no transition loses or
//! duplicates a job.

use vstd::prelude::*;

verus! {

/// Counters describing one worker pool, shared by the pool handle and all
/// of its workers.
///
/// `queued_count` is the number of jobs submitted but not yet claimed by a
/// worker; `active_count` the number of workers currently executing a job;
/// `live_worker_count` the number of worker loops currently running;
/// `target_worker_count` the desired steady-state number of workers;
/// `failure_count` the cumulative number of jobs that failed during
/// execution. `submitted_count` and `completed_count` are the ledger of all
/// jobs ever accepted and ever finished, and `open` records whether the
/// pool still accepts submissions.
#[derive(Clone, Copy, Debug, PartialEq, Eq, Structural)]
pub struct PoolState {
    pub queued_count: usize,
    pub active_count: usize,
    pub live_worker_count: usize,
    pub target_worker_count: usize,
    pub failure_count: usize,
    pub submitted_count: usize,
    pub completed_count: usize,
    pub open: bool,
}

impl PoolState {
    /// Well-formedness of the counters.
    ///
    /// The first conjunct is the conservation law: every job ever submitted
    /// is exactly one of completed, still queued, or being executed. The
    /// second bounds concurrency by the number of live workers, and the
    /// third holds because only a completed job can have failed.
    pub open spec fn inv(self) -> bool {
        &&& self.completed_count + self.queued_count + self.active_count == self.submitted_count
        &&& self.active_count <= self.live_worker_count
        &&& self.failure_count <= self.completed_count
    }

    /// The pool is idle when no job is queued and none is running; this is
    /// the predicate a wait-until-idle barrier blocks on.
    pub open spec fn is_idle(self) -> bool {
        self.queued_count == 0 && self.active_count == 0
    }

    /// The state a pool with `size` workers starts in: nothing queued or
    /// running, the ledger empty, and both the live and the target worker
    /// count equal to `size`.
    pub open spec fn init(size: usize) -> PoolState {
        PoolState {
            queued_count: 0,
            active_count: 0,
            live_worker_count: size,
            target_worker_count: size,
            failure_count: 0,
            submitted_count: 0,
            completed_count: 0,
            open: true,
        }
    }

    /// The same state with submissions shut off.
    pub open spec fn closed(self) -> PoolState {
        PoolState { open: false, ..self }
    }

    /// Fresh state for a pool that starts `size` workers.
    pub fn new(size: usize) -> (s: Self)
        ensures
            s.inv(),
            s == PoolState::init(size),
    {
        PoolState {
            queued_count: 0,
            active_count: 0,
            live_worker_count: size,
            target_worker_count: size,
            failure_count: 0,
            submitted_count: 0,
            completed_count: 0,
            open: true,
        }
    }

    /// True iff some job is queued or running; the negation is the idle
    /// condition, so a caller that sees `false` may wake idle waiters.
    pub fn has_work(&self) -> (r: bool)
        ensures
            r == !self.is_idle(),
    {
        self.queued_count > 0 || self.active_count > 0
    }

    /// A producer accepted one more job: called before the job becomes
    /// visible to consumers, so the queue-depth counter never undercounts.
    pub fn record_enqueue(&mut self)
        requires
            old(self).inv(),
            old(self).open,
            old(self).submitted_count < usize::MAX,
        ensures
            final(self).inv(),
            final(self).queued_count == old(self).queued_count + 1,
            final(self).submitted_count == old(self).submitted_count + 1,
            final(self).active_count == old(self).active_count,
            final(self).completed_count == old(self).completed_count,
            final(self).failure_count == old(self).failure_count,
            final(self).live_worker_count == old(self).live_worker_count,
            final(self).target_worker_count == old(self).target_worker_count,
            final(self).open == old(self).open,
    {
        self.queued_count = self.queued_count + 1;
        self.submitted_count = self.submitted_count + 1;
    }

    /// A worker claimed a queued job and is about to run it: the queued and
    /// active counters move together in one transition, so no observer sees
    /// a transient undercount that would wrongly signal idleness.
    ///
    /// The claiming worker is live and was not running a job, which is the
    /// `active_count < live_worker_count` precondition.
    pub fn record_dequeue_start(&mut self)
        requires
            old(self).inv(),
            old(self).queued_count > 0,
            old(self).active_count < old(self).live_worker_count,
        ensures
            final(self).inv(),
            final(self).queued_count == old(self).queued_count - 1,
            final(self).active_count == old(self).active_count + 1,
            final(self).submitted_count == old(self).submitted_count,
            final(self).completed_count == old(self).completed_count,
            final(self).failure_count == old(self).failure_count,
            final(self).live_worker_count == old(self).live_worker_count,
            final(self).target_worker_count == old(self).target_worker_count,
            final(self).open == old(self).open,
    {
        self.queued_count = self.queued_count - 1;
        self.active_count = self.active_count + 1;
    }

    /// A job finished, successfully or not. The failure tally grows exactly
    /// when `failed` holds, and the result says whether the worker must be
    /// replaced: a failed job retires its worker and a fresh one is started
    /// in the same transition, so `live_worker_count` is unchanged and the
    /// pool's capacity survives any job failure.
    pub fn record_dequeue_end(&mut self, failed: bool) -> (replace: bool)
        requires
            old(self).inv(),
            old(self).active_count > 0,
        ensures
            final(self).inv(),
            replace == failed,
            final(self).active_count == old(self).active_count - 1,
            final(self).completed_count == old(self).completed_count + 1,
            final(self).failure_count == old(self).failure_count + (if failed { 1int } else { 0 }),
            final(self).queued_count == old(self).queued_count,
            final(self).submitted_count == old(self).submitted_count,
            final(self).live_worker_count == old(self).live_worker_count,
            final(self).target_worker_count == old(self).target_worker_count,
            final(self).open == old(self).open,
    {
        self.active_count = self.active_count - 1;
        self.completed_count = self.completed_count + 1;
        if failed {
            self.failure_count = self.failure_count + 1;
        }
        failed
    }

    /// True iff an idle worker should retire instead of claiming more work:
    /// the pool has been shrunk below the number of live workers. This is
    /// how downsizing happens without interrupting a running job.
    pub fn should_retire(&self) -> (r: bool)
        ensures
            r == (self.live_worker_count > self.target_worker_count),
    {
        self.live_worker_count > self.target_worker_count
    }

    /// One worker loop ended, whether by lazy shrink, by a stop signal, or
    /// by the queue closing. The exiting worker was not running a job.
    pub fn record_worker_exit(&mut self)
        requires
            old(self).inv(),
            old(self).active_count < old(self).live_worker_count,
        ensures
            final(self).inv(),
            final(self).live_worker_count == old(self).live_worker_count - 1,
            final(self).queued_count == old(self).queued_count,
            final(self).active_count == old(self).active_count,
            final(self).submitted_count == old(self).submitted_count,
            final(self).completed_count == old(self).completed_count,
            final(self).failure_count == old(self).failure_count,
            final(self).target_worker_count == old(self).target_worker_count,
            final(self).open == old(self).open,
    {
        self.live_worker_count = self.live_worker_count - 1;
    }

    /// Retarget the pool to `new_target` workers and say how many fresh
    /// workers the caller must start. Growing starts the difference at once;
    /// shrinking starts none and changes no other counter — in particular
    /// `active_count` is untouched, so no in-flight job is ever interrupted,
    /// and excess workers retire lazily via `should_retire`.
    pub fn resize(&mut self, new_target: usize) -> (to_spawn: usize)
        requires
            old(self).inv(),
        ensures
            final(self).inv(),
            final(self).target_worker_count == new_target,
            new_target > old(self).live_worker_count ==> {
                &&& to_spawn == new_target - old(self).live_worker_count
                &&& final(self).live_worker_count == new_target
            },
            new_target <= old(self).live_worker_count ==> {
                &&& to_spawn == 0
                &&& final(self).live_worker_count == old(self).live_worker_count
            },
            final(self).queued_count == old(self).queued_count,
            final(self).active_count == old(self).active_count,
            final(self).submitted_count == old(self).submitted_count,
            final(self).completed_count == old(self).completed_count,
            final(self).failure_count == old(self).failure_count,
            final(self).open == old(self).open,
    {
        self.target_worker_count = new_target;
        if new_target > self.live_worker_count {
            let to_spawn = new_target - self.live_worker_count;
            self.live_worker_count = new_target;
            to_spawn
        } else {
            0
        }
    }

    /// Stop accepting submissions; everything already queued stays queued,
    /// so a graceful shutdown drains it before the workers exit.
    pub fn close(&mut self)
        requires
            old(self).inv(),
        ensures
            final(self).inv(),
            !final(self).open,
            *final(self) == old(self).closed(),
            final(self).queued_count == old(self).queued_count,
            final(self).active_count == old(self).active_count,
            final(self).submitted_count == old(self).submitted_count,
            final(self).completed_count == old(self).completed_count,
            final(self).failure_count == old(self).failure_count,
            final(self).live_worker_count == old(self).live_worker_count,
            final(self).target_worker_count == old(self).target_worker_count,
    {
        self.open = false;
    }
}

/// Conservation of jobs: in any well-formed state, the jobs ever submitted
/// are exactly the completed ones plus the queued ones plus the running
/// ones. Since every transition preserves well-formedness, no interleaving
/// of submissions and worker steps loses or duplicates a job.
pub proof fn lemma_no_job_loss(s: PoolState)
    requires
        s.inv(),
    ensures
        s.submitted_count == s.completed_count + s.queued_count + s.active_count,
{
}

/// Idle-wait correctness: a well-formed state with nothing queued and
/// nothing running has completed every job ever submitted, so a barrier
/// that returns when `is_idle` holds returns only after all prior
/// submissions have finished.
pub proof fn lemma_idle_means_drained(s: PoolState)
    requires
        s.inv(),
        s.is_idle(),
    ensures
        s.completed_count == s.submitted_count,
{
}

/// Concurrency bound: a well-formed state never has more jobs running than
/// live workers, so after a resize at most the new target can run at once.
pub proof fn lemma_active_bounded(s: PoolState)
    requires
        s.inv(),
    ensures
        s.active_count <= s.live_worker_count,
{
}

} // verus!
