use vstd::prelude::*;
use vstd::pervasive::VecAdditionalExecFns;

use crate::queue::WorkQueue;
use crate::task::Task;
use crate::task::task_id;
use crate::worker::WorkerAction;
use crate::worker::WorkerState;
use crate::worker::worker_step;

verus! {

/// One entry of the execution log: which task ran, and on which worker.
#[derive(Clone, Copy, Debug, PartialEq, Eq)]
pub struct ExecutionRecord {
    /// The identifier the task was submitted under.
    pub task: u64,
    /// The index of the worker that executed it.
    pub worker: usize,
}

/// What `Threadpool::shutdown` hands back once every worker has been
/// joined: the execution log of the pool's whole life, the final state of
/// each worker, and how the termination markers were consumed.
pub struct ShutdownReport {
    /// Every application task the pool executed, in execution order.
    pub executed: Vec<ExecutionRecord>,
    /// The final state of each worker; all are `Terminated`.
    pub workers: Vec<WorkerState>,
    /// How many termination markers shutdown submitted.
    pub terminations: usize,
    /// For each termination marker, in consumption order, the index of the
    /// worker that consumed it and exited.
    pub marker_consumers: Vec<usize>,
}

/// The worker pool: a fixed set of workers bound to one shared work queue.
///
/// The pool owns the queue's producer side, so while the pool exists the
/// queue stays open and `execute` cannot fail; `shutdown` consumes the
/// pool, which makes a later submission unwritable rather than an error
/// that could be ignored.
pub struct Threadpool {
    queue: WorkQueue,
    workers: Vec<WorkerState>,
}

impl Threadpool {
    /// The tasks submitted and not yet executed, oldest first.
    pub closed spec fn pending(&self) -> Seq<Task> {
        self.queue@
    }

    /// The state of each worker, by worker index.
    pub closed spec fn worker_states(&self) -> Seq<WorkerState> {
        self.workers@
    }

    /// Whether the pool still holds a live producer handle on its queue.
    pub closed spec fn queue_open(&self) -> bool {
        self.queue.is_open()
    }

    /// What construction establishes and every submission preserves: at
    /// least one worker, every worker running, the queue open, and nothing
    /// but application tasks pending (only shutdown creates termination
    /// markers).
    pub open spec fn wf(&self) -> bool {
        &&& self.worker_states().len() >= 1
        &&& forall|j: int|
            0 <= j < self.worker_states().len() ==> self.worker_states()[j]
                == WorkerState::Running
        &&& self.queue_open()
        &&& forall|j: int| 0 <= j < self.pending().len() ==> self.pending()[j] is Work
    }

    /// Builds a pool of `worker_count` workers, each spawned running and
    /// blocked on an empty shared queue.
    pub fn new(worker_count: usize) -> (pool: Threadpool)
        requires
            worker_count >= 1,
        ensures
            pool.wf(),
            pool.worker_states().len() == worker_count,
            pool.pending().len() == 0,
    {
        let mut workers: Vec<WorkerState> = Vec::new();
        let mut i: usize = 0;
        while i < worker_count
            invariant
                i <= worker_count,
                workers@.len() == i,
                forall|j: int| 0 <= j < i ==> workers@[j] == WorkerState::Running,
            decreases worker_count - i,
        {
            workers.push(WorkerState::Running);
            i = i + 1;
        }
        Threadpool { queue: WorkQueue::new(), workers }
    }

    /// Submits a task: appends it at the back of the work queue, without
    /// blocking. The pool owns the queue's producer side, so the enqueue
    /// cannot fail; a submission after shutdown is impossible to express,
    /// because shutdown consumes the pool.
    pub fn execute(&mut self, work: u64)
        requires
            old(self).wf(),
        ensures
            final(self).wf(),
            final(self).worker_states() == old(self).worker_states(),
            final(self).pending() == old(self).pending().push(Task::Work(work)),
    {
        let _ = self.queue.enqueue(Task::Work(work));
    }

    /// Tears the pool down: submits exactly one termination marker per live
    /// worker, releases the producer side of the queue, and drains until
    /// every worker has exited, joining them all. Everything submitted
    /// before this call is executed before the worker that reaches it
    /// exits; nothing is cancelled.
    pub fn shutdown(self) -> (r: ShutdownReport)
        requires
            self.wf(),
        ensures
            shutdown_result(self, r),
    {
        let ghost q0: Seq<Task> = self.pending();
        let mut pool = self;
        let n: usize = pool.workers.len();
        let k: usize = pool.queue.len();

        // One termination marker per live worker, behind all earlier
        // submissions, so every worker sees its own deterministic stop
        // signal after the backlog.
        let markers: Vec<Task> = termination_markers(n);
        let mut i: usize = 0;
        while i < n
            invariant
                i <= n,
                markers@.len() == n,
                forall|j: int| 0 <= j < n ==> markers@[j] == Task::Terminate,
                pool.queue.is_open(),
                pool.queue@.len() == q0.len() + i,
                forall|j: int| 0 <= j < q0.len() ==> pool.queue@[j] == q0[j],
                forall|j: int|
                    q0.len() <= j < pool.queue@.len() ==> pool.queue@[j] == Task::Terminate,
                pool.workers@.len() == n,
                forall|j: int| 0 <= j < n ==> pool.workers@[j] == WorkerState::Running,
            decreases n - i,
        {
            let m = markers[i];
            let _ = pool.queue.enqueue(m);
            i = i + 1;
        }

        // The pool gives up its producer handle: nothing can be enqueued
        // any more, and the queue will report Closed once drained.
        pool.queue.close();

        // The drain: each pending item is handed to exactly one worker,
        // front first. Application tasks run round-robin; each termination
        // marker stops the worker that consumes it.
        let total: usize = pool.queue.len();
        let mut executed: Vec<ExecutionRecord> = Vec::new();
        let mut marker_consumers: Vec<usize> = Vec::new();
        let mut i: usize = 0;
        while i < total
            invariant
                i <= total,
                total == q0.len() + n,
                k == q0.len(),
                n >= 1,
                forall|j: int| 0 <= j < q0.len() ==> q0[j] is Work,
                !pool.queue.is_open(),
                pool.queue@.len() == total - i,
                forall|j: int|
                    0 <= j < pool.queue@.len() ==> pool.queue@[j] == (if i + j < k {
                        q0[i + j]
                    } else {
                        Task::Terminate
                    }),
                pool.workers@.len() == n,
                forall|j: int|
                    0 <= j < n ==> pool.workers@[j] == (if i > k + j {
                        WorkerState::Terminated
                    } else {
                        WorkerState::Running
                    }),
                executed@.len() == (if i <= k {
                    i as int
                } else {
                    k as int
                }),
                forall|j: int|
                    0 <= j < executed@.len() ==> #[trigger] executed@[j] == (ExecutionRecord {
                        task: task_id(q0[j]),
                        worker: (j % (n as int)) as usize,
                    }),
                marker_consumers@.len() == (if i <= k {
                    0int
                } else {
                    i - k
                }),
                forall|j: int|
                    0 <= j < marker_consumers@.len() ==> #[trigger] marker_consumers@[j] as int
                        == j,
            decreases total - i,
        {
            let event = pool.queue.dequeue();
            if i < k {
                // The front item is an application task: the next worker in
                // the round runs it and keeps running.
                let w: usize = i % n;
                let state = pool.workers[w];
                let (next, action) = worker_step(state, event);
                match action {
                    WorkerAction::Run(id) => {
                        executed.push(ExecutionRecord { task: id, worker: w });
                    },
                    WorkerAction::Exit => {},
                }
                pool.workers.set(w, next);
            } else {
                // The front item is a termination marker: one worker
                // consumes it, exits its loop, and is joined.
                let w: usize = i - k;
                let state = pool.workers[w];
                let (next, _) = worker_step(state, event);
                pool.workers.set(w, next);
                marker_consumers.push(w);
            }
            i = i + 1;
        }

        ShutdownReport { executed, workers: pool.workers, terminations: n, marker_consumers }
    }
}

/// Everything `shutdown` promises, over the pool as it stood when shutdown
/// was called (`p`) and the report it returned (`r`):
///
/// - the report lists every worker, and every worker is terminated;
/// - exactly one termination marker was submitted per worker, and marker
///   number `j` was consumed by worker `j`, so each worker consumed exactly
///   one;
/// - every pending task was executed, exactly once, in submission order:
///   the record at position `i` of the log is the task submitted at
///   position `i`, run on worker `i % worker_count`.
pub open spec fn shutdown_result(p: Threadpool, r: ShutdownReport) -> bool {
    &&& r.workers@.len() == p.worker_states().len()
    &&& forall|j: int| 0 <= j < r.workers@.len() ==> r.workers@[j] == WorkerState::Terminated
    &&& r.terminations == p.worker_states().len()
    &&& r.marker_consumers@.len() == p.worker_states().len()
    &&& forall|j: int|
        0 <= j < r.marker_consumers@.len() ==> #[trigger] r.marker_consumers@[j] as int == j
    &&& r.executed@.len() == p.pending().len()
    &&& forall|i: int|
        0 <= i < r.executed@.len() ==> #[trigger] r.executed@[i] == (ExecutionRecord {
            task: task_id(p.pending()[i]),
            worker: (i % (p.worker_states().len() as int)) as usize,
        })
}

/// Builds the stop signals that shutdown submits: one termination marker
/// for each live worker, and nothing else.
pub fn termination_markers(live_workers: usize) -> (markers: Vec<Task>)
    ensures
        markers@.len() == live_workers,
        forall|j: int| 0 <= j < markers@.len() ==> markers@[j] == Task::Terminate,
{
    let mut markers: Vec<Task> = Vec::new();
    let mut i: usize = 0;
    while i < live_workers
        invariant
            i <= live_workers,
            markers@.len() == i,
            forall|j: int| 0 <= j < i ==> markers@[j] == Task::Terminate,
        decreases live_workers - i,
    {
        markers.push(Task::Terminate);
        i = i + 1;
    }
    markers
}

} // verus!
