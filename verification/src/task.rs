use vstd::prelude::*;

verus! {

/// A unit of work handed to the pool.
///
/// The pool never looks inside a task: a task is owned by its submitter
/// until it is enqueued, and by exactly one worker afterwards. The model
/// therefore carries only an identifier chosen by the submitter, by which
/// the execution log can be matched against what was submitted.
///
/// `Terminate` is the termination marker: the worker that dequeues it exits
/// its loop. Only `Threadpool::shutdown` creates termination markers;
/// submitters can only enqueue `Work`.
#[derive(Clone, Copy, Debug, PartialEq, Eq)]
pub enum Task {
    /// An application task, named by the number its submitter chose.
    Work(u64),
    /// A marker instructing the worker that dequeues it to exit.
    Terminate,
}

/// The identifier a `Work` task was submitted under.
pub open spec fn task_id(t: Task) -> u64 {
    match t {
        Task::Work(id) => id,
        Task::Terminate => 0,
    }
}

} // verus!
