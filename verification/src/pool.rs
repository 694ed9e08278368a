//! The pool core: the job queue and the shared counters behind one lock,
//! with the complete submit / claim / execute / finish protocol, dynamic
//! resizing, and both termination modes.
//!
//! An embedding owns a `PoolCore` inside a mutex. Producers call `submit`;
//! each worker thread loops over `worker_poll` and `worker_take`, runs the
//! job it was handed outside the lock, and reports back with `finish`. The
//! core never blocks: when `worker_take` answers `Wait` the embedding parks
//! the worker on a condition variable, and when `finish` leaves the pool
//! idle it wakes any wait-until-idle barrier.

use vstd::prelude::*;

use crate::queue::{all_jobs, job_count, lemma_job_count_all_jobs, lemma_job_count_push, JobQueue,
    Message};
use crate::state::PoolState;

verus! {

/// Errors the pool reports to its caller.
#[derive(Clone, Copy, Debug, PartialEq, Eq, Structural)]
pub enum PoolError {
    /// The pool was asked to start with zero workers; it refuses to start
    /// rather than behave as a queue nothing ever drains.
    ZeroWorkers,
    /// A job was submitted after the pool was closed.
    Closed,
}

/// What an idle worker should do at the top of its loop.
#[derive(Clone, Copy, Debug, PartialEq, Eq, Structural)]
pub enum WorkerStep {
    /// Go claim the next message from the queue.
    Claim,
    /// The pool was shrunk below the live worker count: exit now, without
    /// claiming more work.
    Retire,
}

/// What a worker was handed when it asked the queue for work.
pub enum Taken<T> {
    /// A job to execute; the worker is now counted as active.
    Run(T),
    /// Nothing is pending but the pool is open: park until a producer
    /// enqueues, then ask again.
    Wait,
    /// A stop sentinel arrived, or the pool is closed and drained: the
    /// worker loop ends and it is no longer counted as live.
    Exit,
}

/// The verified core of one worker pool: the FIFO message queue and the
/// shared counters, kept consistent with each other.
pub struct PoolCore<T> {
    pub queue: JobQueue<T>,
    pub state: PoolState,
}

impl<T> PoolCore<T> {
    /// Well-formedness: the counters are well-formed and `queued_count` is
    /// exactly the number of jobs (not sentinels) pending in the queue.
    pub open spec fn inv(self) -> bool {
        &&& self.state.inv()
        &&& self.state.queued_count as nat == job_count(self.queue@)
    }

    /// Build the core of a pool with `size` workers; a pool with zero
    /// workers could never run anything, so construction fails fast
    /// instead of letting the first submission hang forever.
    pub fn new(size: usize) -> (r: Result<Self, PoolError>)
        ensures
            size == 0 ==> r == Err::<Self, PoolError>(PoolError::ZeroWorkers),
            size > 0 ==> {
                &&& r is Ok
                &&& r->Ok_0.inv()
                &&& r->Ok_0.queue@ == Seq::<Message<T>>::empty()
                &&& r->Ok_0.state == PoolState::init(size)
            },
    {
        if size == 0 {
            Err(PoolError::ZeroWorkers)
        } else {
            Ok(PoolCore { queue: JobQueue::new(), state: PoolState::new(size) })
        }
    }

    /// Submit one job. While the pool is open this always succeeds, never
    /// blocks, and appends the job at the tail of the queue after raising
    /// the queued counter; once the pool is closed it reports `Closed` and
    /// changes nothing, so a submission is never silently dropped.
    pub fn submit(&mut self, job: T) -> (r: Result<(), PoolError>)
        requires
            old(self).inv(),
            old(self).state.submitted_count < usize::MAX,
        ensures
            final(self).inv(),
            old(self).state.open ==> {
                &&& r is Ok
                &&& final(self).queue@ == old(self).queue@.push(Message::Job(job))
                &&& final(self).state.queued_count == old(self).state.queued_count + 1
                &&& final(self).state.submitted_count == old(self).state.submitted_count + 1
            },
            !old(self).state.open ==> {
                &&& r == Err::<(), PoolError>(PoolError::Closed)
                &&& final(self).queue@ == old(self).queue@
                &&& final(self).state == old(self).state
            },
            final(self).state.active_count == old(self).state.active_count,
            final(self).state.completed_count == old(self).state.completed_count,
            final(self).state.failure_count == old(self).state.failure_count,
            final(self).state.live_worker_count == old(self).state.live_worker_count,
            final(self).state.target_worker_count == old(self).state.target_worker_count,
            final(self).state.open == old(self).state.open,
    {
        if !self.state.open {
            Err(PoolError::Closed)
        } else {
            self.state.record_enqueue();
            proof {
                lemma_job_count_push(self.queue@, Message::Job(job));
            }
            self.queue.enqueue(Message::Job(job));
            Ok(())
        }
    }

    /// The decision an idle worker takes at the top of its loop: retire if
    /// the pool has been shrunk below the live worker count — this is the
    /// lazy shrink, it never touches a running job — and otherwise go claim
    /// work. Retirement is the only effect; every counter a producer or an
    /// idle waiter observes is unchanged.
    pub fn worker_poll(&mut self) -> (step: WorkerStep)
        requires
            old(self).inv(),
            old(self).state.active_count < old(self).state.live_worker_count,
        ensures
            final(self).inv(),
            step == WorkerStep::Retire <==> old(self).state.live_worker_count > old(
                self,
            ).state.target_worker_count,
            step == WorkerStep::Retire ==> final(self).state.live_worker_count == old(
                self,
            ).state.live_worker_count - 1,
            step == WorkerStep::Claim ==> final(self).state == old(self).state,
            final(self).queue@ == old(self).queue@,
            final(self).state.queued_count == old(self).state.queued_count,
            final(self).state.active_count == old(self).state.active_count,
            final(self).state.submitted_count == old(self).state.submitted_count,
            final(self).state.completed_count == old(self).state.completed_count,
            final(self).state.failure_count == old(self).state.failure_count,
            final(self).state.target_worker_count == old(self).state.target_worker_count,
            final(self).state.open == old(self).state.open,
    {
        if self.state.should_retire() {
            self.state.record_worker_exit();
            WorkerStep::Retire
        } else {
            WorkerStep::Claim
        }
    }

    /// A worker asks for the next message. The oldest message is taken
    /// first, so hand-out is FIFO; a job moves the worker from queued to
    /// active in the same transition, a stop sentinel or a drained closed
    /// queue retires the worker, and an empty open queue tells the worker
    /// to wait. The calling worker is live and idle, which is the
    /// `active_count < live_worker_count` precondition.
    pub fn worker_take(&mut self) -> (t: Taken<T>)
        requires
            old(self).inv(),
            old(self).state.active_count < old(self).state.live_worker_count,
        ensures
            final(self).inv(),
            old(self).queue@.len() == 0 && old(self).state.open ==> {
                &&& t is Wait
                &&& final(self).queue@ == old(self).queue@
                &&& final(self).state == old(self).state
            },
            old(self).queue@.len() == 0 && !old(self).state.open ==> {
                &&& t is Exit
                &&& final(self).queue@ == old(self).queue@
                &&& final(self).state.live_worker_count == old(self).state.live_worker_count - 1
                &&& final(self).state.queued_count == old(self).state.queued_count
                &&& final(self).state.active_count == old(self).state.active_count
            },
            old(self).queue@.len() > 0 ==> final(self).queue@ == old(self).queue@.drop_first(),
            old(self).queue@.len() > 0 && old(self).queue@[0] is Job ==> {
                &&& t == Taken::Run(old(self).queue@[0]->Job_0)
                &&& final(self).state.queued_count == old(self).state.queued_count - 1
                &&& final(self).state.active_count == old(self).state.active_count + 1
                &&& final(self).state.live_worker_count == old(self).state.live_worker_count
            },
            old(self).queue@.len() > 0 && old(self).queue@[0] is Stop ==> {
                &&& t is Exit
                &&& final(self).state.queued_count == old(self).state.queued_count
                &&& final(self).state.active_count == old(self).state.active_count
                &&& final(self).state.live_worker_count == old(self).state.live_worker_count - 1
            },
            final(self).state.submitted_count == old(self).state.submitted_count,
            final(self).state.completed_count == old(self).state.completed_count,
            final(self).state.failure_count == old(self).state.failure_count,
            final(self).state.target_worker_count == old(self).state.target_worker_count,
            final(self).state.open == old(self).state.open,
    {
        match self.queue.try_dequeue() {
            None => {
                if self.state.open {
                    Taken::Wait
                } else {
                    self.state.record_worker_exit();
                    Taken::Exit
                }
            },
            Some(Message::Job(job)) => {
                self.state.record_dequeue_start();
                Taken::Run(job)
            },
            Some(Message::Stop) => {
                self.state.record_worker_exit();
                Taken::Exit
            },
        }
    }

    /// A worker finished the job it was running. The failure tally grows
    /// exactly when `failed` holds, and the result tells the embedding
    /// whether to start a replacement worker: a failed job retires its
    /// worker and a fresh one takes its place in the same transition, so
    /// the live worker count — the pool's capacity — is unchanged and a
    /// failure never harms other jobs or the pool itself.
    pub fn finish(&mut self, failed: bool) -> (replace: bool)
        requires
            old(self).inv(),
            old(self).state.active_count > 0,
        ensures
            final(self).inv(),
            replace == failed,
            final(self).queue@ == old(self).queue@,
            final(self).state.active_count == old(self).state.active_count - 1,
            final(self).state.completed_count == old(self).state.completed_count + 1,
            final(self).state.failure_count == old(self).state.failure_count + (
            if failed {
                1int
            } else {
                0
            }),
            final(self).state.queued_count == old(self).state.queued_count,
            final(self).state.submitted_count == old(self).state.submitted_count,
            final(self).state.live_worker_count == old(self).state.live_worker_count,
            final(self).state.target_worker_count == old(self).state.target_worker_count,
            final(self).state.open == old(self).state.open,
    {
        self.state.record_dequeue_end(failed)
    }

    /// True iff some job is queued or running; `false` is the condition a
    /// wait-until-idle barrier returns on, and by `lemma_idle_means_drained`
    /// it implies every submitted job has completed.
    pub fn has_work(&self) -> (r: bool)
        ensures
            r == !self.state.is_idle(),
    {
        self.state.has_work()
    }

    /// Retarget the pool to `new_target` workers and return how many fresh
    /// workers the embedding must start now. Shrinking spawns nothing and
    /// leaves every other counter alone — in particular `active_count`, so
    /// no in-flight job is interrupted; the excess workers retire lazily
    /// through `worker_poll`.
    pub fn resize(&mut self, new_target: usize) -> (to_spawn: usize)
        requires
            old(self).inv(),
        ensures
            final(self).inv(),
            final(self).queue@ == old(self).queue@,
            final(self).state.target_worker_count == new_target,
            new_target > old(self).state.live_worker_count ==> {
                &&& to_spawn == new_target - old(self).state.live_worker_count
                &&& final(self).state.live_worker_count == new_target
            },
            new_target <= old(self).state.live_worker_count ==> {
                &&& to_spawn == 0
                &&& final(self).state.live_worker_count == old(self).state.live_worker_count
            },
            final(self).state.queued_count == old(self).state.queued_count,
            final(self).state.active_count == old(self).state.active_count,
            final(self).state.submitted_count == old(self).state.submitted_count,
            final(self).state.completed_count == old(self).state.completed_count,
            final(self).state.failure_count == old(self).state.failure_count,
            final(self).state.open == old(self).state.open,
    {
        self.state.resize(new_target)
    }

    /// Begin a graceful shutdown: refuse further submissions but leave the
    /// queue untouched, so every job already queued is still drained and
    /// each worker exits only once it finds the closed queue empty.
    pub fn close(&mut self)
        requires
            old(self).inv(),
        ensures
            final(self).inv(),
            !final(self).state.open,
            final(self).queue@ == old(self).queue@,
            final(self).state.queued_count == old(self).state.queued_count,
            final(self).state.active_count == old(self).state.active_count,
            final(self).state.submitted_count == old(self).state.submitted_count,
            final(self).state.completed_count == old(self).state.completed_count,
            final(self).state.failure_count == old(self).state.failure_count,
            final(self).state.live_worker_count == old(self).state.live_worker_count,
            final(self).state.target_worker_count == old(self).state.target_worker_count,
    {
        self.state.close()
    }

    /// The worker side of a graceful shutdown, run to completion: one
    /// worker repeatedly claims, executes and finishes jobs until it finds
    /// the closed queue empty, then exits. The jobs are returned to the
    /// caller in hand-out order, and the contract proves the drain
    /// guarantee: every job queued when shutdown began is handed out
    /// exactly once, in FIFO order, and completed before the worker exits.
    ///
    /// The pool must be closed and quiescent — no job running and no stop
    /// sentinel pending — which is exactly the state graceful shutdown
    /// leaves for its last worker.
    pub fn drain(&mut self) -> (jobs: Vec<T>)
        requires
            old(self).inv(),
            !old(self).state.open,
            old(self).state.active_count == 0,
            old(self).state.live_worker_count >= 1,
            all_jobs(old(self).queue@),
        ensures
            final(self).inv(),
            jobs@.len() == old(self).state.queued_count,
            forall|i: int|
                0 <= i < jobs@.len() ==> old(self).queue@[i] == Message::Job(jobs@[i]),
            final(self).queue@.len() == 0,
            final(self).state.queued_count == 0,
            final(self).state.active_count == 0,
            final(self).state.completed_count == old(self).state.completed_count + old(
                self,
            ).state.queued_count,
            final(self).state.submitted_count == old(self).state.submitted_count,
            final(self).state.failure_count == old(self).state.failure_count,
            final(self).state.live_worker_count == old(self).state.live_worker_count - 1,
            final(self).state.target_worker_count == old(self).state.target_worker_count,
            !final(self).state.open,
    {
        let ghost q0 = self.queue@;
        let ghost s0 = self.state;
        let mut jobs: Vec<T> = Vec::new();
        loop
            invariant_except_break
                self.inv(),
                !self.state.open,
                self.state.active_count == 0,
                self.state.live_worker_count == s0.live_worker_count,
                s0.live_worker_count >= 1,
                self.state.submitted_count == s0.submitted_count,
                self.state.failure_count == s0.failure_count,
                self.state.target_worker_count == s0.target_worker_count,
                self.state.completed_count == s0.completed_count + jobs@.len(),
                all_jobs(self.queue@),
                jobs@.len() + self.queue@.len() == q0.len(),
                forall|i: int| 0 <= i < jobs@.len() ==> q0[i] == Message::Job(jobs@[i]),
                self.queue@ == q0.subrange(jobs@.len() as int, q0.len() as int),
            ensures
                self.inv(),
                !self.state.open,
                self.state.active_count == 0,
                self.queue@.len() == 0,
                self.state.live_worker_count == s0.live_worker_count - 1,
                self.state.submitted_count == s0.submitted_count,
                self.state.failure_count == s0.failure_count,
                self.state.target_worker_count == s0.target_worker_count,
                self.state.completed_count == s0.completed_count + jobs@.len(),
                jobs@.len() == q0.len(),
                forall|i: int| 0 <= i < jobs@.len() ==> q0[i] == Message::Job(jobs@[i]),
            decreases self.queue@.len(),
        {
            let ghost prev = self.queue@;
            match self.worker_take() {
                Taken::Run(job) => {
                    proof {
                        assert(prev[0] == q0[jobs@.len() as int]);
                    }
                    jobs.push(job);
                    self.finish(false);
                    proof {
                        assert(self.queue@ =~= q0.subrange(
                            jobs@.len() as int,
                            q0.len() as int,
                        ));
                    }
                },
                Taken::Exit => {
                    break ;
                },
                Taken::Wait => {
                    proof {
                        assert(false);
                    }
                    break ;
                },
            }
        }
        proof {
            lemma_job_count_all_jobs(q0);
        }
        jobs
    }

    /// Begin a signal-based stop: close the pool and append one stop
    /// sentinel per live worker. Each worker consumes one message per loop
    /// iteration, so exactly the live workers are stopped; jobs already
    /// ahead of the sentinels are still consumed first, but this mode makes
    /// no drain guarantee for work racing with the stop.
    pub fn stop_all(&mut self) -> (n: usize)
        requires
            old(self).inv(),
        ensures
            final(self).inv(),
            n == old(self).state.live_worker_count,
            final(self).queue@.len() == old(self).queue@.len() + n,
            final(self).queue@.subrange(0, old(self).queue@.len() as int) == old(self).queue@,
            forall|i: int|
                old(self).queue@.len() <= i < final(self).queue@.len()
                    ==> final(self).queue@[i] is Stop,
            !final(self).state.open,
            final(self).state.queued_count == old(self).state.queued_count,
            final(self).state.active_count == old(self).state.active_count,
            final(self).state.submitted_count == old(self).state.submitted_count,
            final(self).state.completed_count == old(self).state.completed_count,
            final(self).state.failure_count == old(self).state.failure_count,
            final(self).state.live_worker_count == old(self).state.live_worker_count,
            final(self).state.target_worker_count == old(self).state.target_worker_count,
    {
        self.state.close();
        let n = self.state.live_worker_count;
        let mut sent: usize = 0;
        while sent < n
            invariant
                sent <= n,
                self.inv(),
                self.state == old(self).state.closed(),
                self.queue@.len() == old(self).queue@.len() + sent,
                self.queue@.subrange(0, old(self).queue@.len() as int) == old(self).queue@,
                forall|i: int|
                    old(self).queue@.len() <= i < self.queue@.len() ==> self.queue@[i] is Stop,
            decreases n - sent,
        {
            proof {
                lemma_job_count_push(self.queue@, Message::Stop);
            }
            let ghost prev = self.queue@;
            self.queue.enqueue(Message::Stop);
            proof {
                assert(self.queue@.subrange(0, old(self).queue@.len() as int) =~= prev.subrange(
                    0,
                    old(self).queue@.len() as int,
                ));
            }
            sent = sent + 1;
        }
        n
    }
}

/// An idle pool holds no job in its queue: with nothing queued and nothing
/// running, every message still pending (there can only be stop sentinels)
/// carries no work, so an idle-wait barrier never returns while a job sits
/// unexecuted in the queue.
pub proof fn lemma_idle_queue_holds_no_job<T>(p: PoolCore<T>)
    requires
        p.inv(),
        p.state.is_idle(),
    ensures
        job_count(p.queue@) == 0,
{
}

/// Graceful shutdown drains the queue: a worker exits gracefully only once
/// it finds the closed queue empty, and shutdown returns only after every
/// worker has exited and been joined. In any such state — queue empty and
/// no job still running — every job ever submitted has completed, so
/// nothing queued before the shutdown is lost.
pub proof fn lemma_graceful_exit_means_drained<T>(p: PoolCore<T>)
    requires
        p.inv(),
        p.queue@.len() == 0,
        p.state.active_count == 0,
    ensures
        p.state.completed_count == p.state.submitted_count,
{
}

} // verus!
