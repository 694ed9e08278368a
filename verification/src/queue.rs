//! The job queue: an unbounded FIFO sequence of messages from producers to
//! workers. A message is either a job or the explicit stop sentinel used by
//! the signal-based termination mode.
//!
//! The queue itself never blocks: `try_dequeue` reports an empty queue and
//! the embedding parks the worker on a condition variable until a producer
//! enqueues. One lock guards the consumer side, so each message is handed
//! to exactly one worker; the contracts here, stated over the queue's view
//! as a sequence, pin down FIFO order and exactly-once delivery.

use vstd::prelude::*;

verus! {

/// One item carried by the queue: a unit of work, or the stop sentinel
/// that tells the worker which dequeues it to exit immediately.
pub enum Message<T> {
    Job(T),
    Stop,
}

/// How many of the messages in `s` are jobs rather than stop sentinels.
/// The pool keeps its `queued_count` equal to this number.
pub open spec fn job_count<T>(s: Seq<Message<T>>) -> nat
    decreases s.len(),
{
    if s.len() == 0 {
        0
    } else {
        (if s[0] is Job {
            1nat
        } else {
            0nat
        }) + job_count(s.drop_first())
    }
}

/// Appending a message adds one to the job count exactly when it is a job.
pub proof fn lemma_job_count_push<T>(s: Seq<Message<T>>, m: Message<T>)
    ensures
        job_count(s.push(m)) == job_count(s) + (if m is Job { 1int } else { 0 }),
    decreases s.len(),
{
    if s.len() == 0 {
        assert(s.push(m).drop_first() =~= s);
    } else {
        assert(s.push(m).drop_first() =~= s.drop_first().push(m));
        lemma_job_count_push(s.drop_first(), m);
    }
}

/// Every message in `s` is a job, none is a stop sentinel. This holds of
/// the whole queue as long as only graceful shutdown is used.
pub open spec fn all_jobs<T>(s: Seq<Message<T>>) -> bool {
    forall|i: int| 0 <= i < s.len() ==> s[i] is Job
}

/// In a queue of jobs only, the job count is the queue length.
pub proof fn lemma_job_count_all_jobs<T>(s: Seq<Message<T>>)
    requires
        all_jobs(s),
    ensures
        job_count(s) == s.len(),
    decreases s.len(),
{
    if s.len() > 0 {
        assert forall|i: int| 0 <= i < s.drop_first().len() implies s.drop_first()[i] is Job by {
            assert(s.drop_first()[i] == s[i + 1]);
        }
        lemma_job_count_all_jobs(s.drop_first());
    }
}

/// An unbounded FIFO queue of messages. Its view is the sequence of
/// messages currently pending, oldest first.
pub struct JobQueue<T> {
    items: Vec<Message<T>>,
}

impl<T> View for JobQueue<T> {
    type V = Seq<Message<T>>;

    closed spec fn view(&self) -> Seq<Message<T>> {
        self.items@
    }
}

impl<T> JobQueue<T> {
    /// An empty queue.
    pub fn new() -> (q: Self)
        ensures
            q@ == Seq::<Message<T>>::empty(),
    {
        JobQueue { items: Vec::new() }
    }

    /// How many messages are pending.
    pub fn len(&self) -> (n: usize)
        ensures
            n == self@.len(),
    {
        self.items.len()
    }

    /// Enqueue always succeeds (the queue is unbounded) and appends at the
    /// tail, so messages from one producer are delivered in the order it
    /// enqueued them.
    pub fn enqueue(&mut self, m: Message<T>)
        ensures
            final(self)@ == old(self)@.push(m),
    {
        self.items.push(m);
    }

    /// Take the oldest pending message, or report the queue empty. A
    /// returned message is removed from the view, so it is delivered to
    /// exactly one caller.
    pub fn try_dequeue(&mut self) -> (r: Option<Message<T>>)
        ensures
            old(self)@.len() == 0 ==> (r is None && final(self)@ == old(self)@),
            old(self)@.len() > 0 ==> {
                &&& r == Some(old(self)@[0])
                &&& final(self)@ == old(self)@.drop_first()
            },
    {
        if self.items.len() == 0 {
            None
        } else {
            let m = self.items.remove(0);
            proof {
                assert(self.items@ =~= old(self)@.drop_first());
            }
            Some(m)
        }
    }
}

} // verus!
