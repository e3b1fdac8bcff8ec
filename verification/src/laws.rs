use vstd::prelude::*;

use crate::pool::ExecutionRecord;
use crate::pool::ShutdownReport;
use crate::pool::Threadpool;
use crate::pool::shutdown_result;
use crate::task::task_id;
use crate::worker::WorkerState;
use crate::worker::lemma_live_count_all_running;
use crate::worker::live_count;

verus! {

/// Exclusivity: every task submitted to the pool is executed by exactly one
/// worker, exactly once. Submission `i` has exactly one record in the
/// execution log — the one at position `i` — and that record names a single
/// worker of the pool.
pub proof fn lemma_exclusivity(p: Threadpool, r: ShutdownReport)
    requires
        p.wf(),
        shutdown_result(p, r),
    ensures
        r.executed@.len() == p.pending().len(),
        forall|i: int|
            0 <= i < p.pending().len() ==> #[trigger] r.executed@[i].task == task_id(
                p.pending()[i],
            ) && r.executed@[i].worker < p.worker_states().len(),
{
    assert forall|i: int| 0 <= i < p.pending().len() implies #[trigger] r.executed@[i].task
        == task_id(p.pending()[i]) && r.executed@[i].worker < p.worker_states().len() by {
        let n = p.worker_states().len() as int;
        assert(r.executed@[i] == ExecutionRecord {
            task: task_id(p.pending()[i]),
            worker: (i % n) as usize,
        });
        assert(0 <= i % n < n);
    }
}

/// FIFO per producer: the execution log lists tasks in submission order, so
/// of two tasks submitted one after the other by the same producer, the
/// earlier one is dequeued and executed no later than the later one — its
/// record stands at the earlier position.
pub proof fn lemma_fifo_per_producer(p: Threadpool, r: ShutdownReport, i: int, j: int)
    requires
        p.wf(),
        shutdown_result(p, r),
        0 <= i <= j < p.pending().len(),
    ensures
        r.executed@[i].task == task_id(p.pending()[i]),
        r.executed@[j].task == task_id(p.pending()[j]),
        i <= j,
{
}

/// Shutdown completeness: after `shutdown` returns, no worker is alive —
/// every worker the pool ever had is reported `Terminated` — and no task
/// submitted before the call remains unexecuted.
pub proof fn lemma_shutdown_completeness(p: Threadpool, r: ShutdownReport)
    requires
        p.wf(),
        shutdown_result(p, r),
    ensures
        r.workers@.len() == p.worker_states().len(),
        forall|j: int| 0 <= j < r.workers@.len() ==> r.workers@[j] == WorkerState::Terminated,
        r.executed@.len() == p.pending().len(),
{
}

/// Termination determinism: shutdown submits exactly one termination marker
/// per live worker, and each live worker consumes exactly one marker before
/// exiting — no worker consumes two, and no worker is left without one.
pub proof fn lemma_termination_determinism(p: Threadpool, r: ShutdownReport)
    requires
        p.wf(),
        shutdown_result(p, r),
    ensures
        r.terminations == live_count(p.worker_states()),
        r.marker_consumers@.len() == live_count(p.worker_states()),
        forall|a: int, b: int|
            0 <= a < b < r.marker_consumers@.len() ==> r.marker_consumers@[a]
                != r.marker_consumers@[b],
        forall|w: int|
            0 <= w < p.worker_states().len() ==> #[trigger] r.marker_consumers@.contains(
                w as usize,
            ),
{
    lemma_live_count_all_running(p.worker_states());
    assert forall|w: int| 0 <= w < p.worker_states().len() implies #[trigger] r.marker_consumers@
        .contains(w as usize) by {
        assert(r.marker_consumers@[w] == w as usize);
    }
}

/// A shared counter incremented once by each executed task, starting from
/// `init`: the value once `log` has run.
pub open spec fn counter_after(init: int, log: Seq<ExecutionRecord>) -> int
    decreases log.len(),
{
    if log.len() == 0 {
        init
    } else {
        counter_after(init, log.drop_last()) + 1
    }
}

proof fn lemma_counter_after_len(init: int, log: Seq<ExecutionRecord>)
    ensures
        counter_after(init, log) == init + log.len(),
    decreases log.len(),
{
    if log.len() > 0 {
        lemma_counter_after_len(init, log.drop_last());
    }
}

/// Exactly-once delivery under any submission interleaving: however the
/// submitted tasks were interleaved into the queue, a shared counter that
/// each executed task increments once ends, after shutdown, at its initial
/// value plus the number of tasks submitted — no task is lost and none runs
/// twice.
pub proof fn lemma_exactly_once_counter(p: Threadpool, r: ShutdownReport, init: int)
    requires
        p.wf(),
        shutdown_result(p, r),
    ensures
        counter_after(init, r.executed@) == init + p.pending().len(),
{
    lemma_counter_after_len(init, r.executed@);
}

} // verus!
