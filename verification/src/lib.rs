//! A worker-pool core: the shared state that coordinates a bounded set of
//! worker threads pulling jobs from a FIFO queue.
//!
//! The crate verifies the pool's bookkeeping and hand-off protocol: the
//! shared counters (queued, active, live, target, failures), the job queue,
//! the worker loop's decisions (claim, wait, retire), dynamic resizing, and
//! the two termination modes (graceful drain and signal-based stop). An
//! embedding supplies the threads, the lock around the core and the condition
//! variables; every decision it acts on is computed here under contract.

pub mod pool;
pub mod queue;
pub mod state;
