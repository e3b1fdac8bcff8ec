use vstd::prelude::*;

use crate::queue::DequeueEvent;
use crate::task::Task;

verus! {

/// The lifecycle state of a worker. A worker is spawned `Running` and the
/// only transition is to `Terminated`; nothing ever reactivates a
/// terminated worker.
#[derive(Clone, Copy, Debug, PartialEq, Eq)]
pub enum WorkerState {
    Running,
    Terminated,
}

/// What a worker does after looking at a dequeue outcome: run the named
/// task and loop again, or exit its loop.
#[derive(Clone, Copy, Debug, PartialEq, Eq)]
pub enum WorkerAction {
    Run(u64),
    Exit,
}

/// The worker state machine, as a relation: from a dequeue outcome to the
/// worker's next state and the action it takes.
///
/// - a received application task is run, and the worker keeps running;
/// - a received termination marker makes the worker exit;
/// - a closed queue makes the worker exit.
pub open spec fn worker_step_spec(
    event: DequeueEvent,
    next: WorkerState,
    action: WorkerAction,
) -> bool {
    match event {
        DequeueEvent::Received(Task::Work(id)) => next == WorkerState::Running
            && action == WorkerAction::Run(id),
        DequeueEvent::Received(Task::Terminate) => next == WorkerState::Terminated
            && action == WorkerAction::Exit,
        DequeueEvent::Closed => next == WorkerState::Terminated && action == WorkerAction::Exit,
    }
}

/// One decision of a worker's receive-execute loop: given the worker's
/// current state and what the queue handed it, the worker's next state and
/// the action to perform. Only a running worker asks the queue for work.
pub fn worker_step(state: WorkerState, event: DequeueEvent) -> (r: (WorkerState, WorkerAction))
    requires
        state == WorkerState::Running,
    ensures
        worker_step_spec(event, r.0, r.1),
{
    match event {
        DequeueEvent::Received(Task::Work(id)) => (WorkerState::Running, WorkerAction::Run(id)),
        DequeueEvent::Received(Task::Terminate) => (WorkerState::Terminated, WorkerAction::Exit),
        DequeueEvent::Closed => (WorkerState::Terminated, WorkerAction::Exit),
    }
}

/// The number of workers still running.
pub open spec fn live_count(ws: Seq<WorkerState>) -> nat
    decreases ws.len(),
{
    if ws.len() == 0 {
        0
    } else {
        (if ws[0] == WorkerState::Running {
            1nat
        } else {
            0nat
        }) + live_count(ws.drop_first())
    }
}

/// In a pool where every worker is running, the live count is the worker
/// count.
pub proof fn lemma_live_count_all_running(ws: Seq<WorkerState>)
    requires
        forall|j: int| 0 <= j < ws.len() ==> ws[j] == WorkerState::Running,
    ensures
        live_count(ws) == ws.len(),
    decreases ws.len(),
{
    if ws.len() > 0 {
        assert forall|j: int| 0 <= j < ws.drop_first().len() implies ws.drop_first()[j]
            == WorkerState::Running by {
            assert(ws.drop_first()[j] == ws[j + 1]);
        }
        lemma_live_count_all_running(ws.drop_first());
    }
}

} // verus!
