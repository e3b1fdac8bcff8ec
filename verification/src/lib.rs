//! A fixed-size worker pool, modelled sequentially so that its queue
//! discipline, worker lifecycle and shutdown protocol can be verified.
//!
//! Tasks are opaque units of work; the model identifies each by the number
//! its submitter chose. Workers are state machines that pull tasks from a
//! shared FIFO queue; `worker_step` is the verified decision a worker makes
//! on each dequeue outcome. `Threadpool::shutdown` consumes the pool,
//! submits one termination marker per live worker, and drains the queue,
//! returning a report of everything that was executed.

pub mod task;
pub mod queue;
pub mod worker;
pub mod pool;
pub mod laws;

pub use crate::task::Task;
pub use crate::task::task_id;
pub use crate::queue::DequeueEvent;
pub use crate::queue::QueueError;
pub use crate::queue::WorkQueue;
pub use crate::worker::WorkerAction;
pub use crate::worker::WorkerState;
pub use crate::worker::worker_step;
pub use crate::worker::worker_step_spec;
pub use crate::pool::ExecutionRecord;
pub use crate::pool::ShutdownReport;
pub use crate::pool::Threadpool;
pub use crate::pool::shutdown_result;
pub use crate::pool::termination_markers;
