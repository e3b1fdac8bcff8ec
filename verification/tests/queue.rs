use workpool::DequeueEvent;
use workpool::QueueError;
use workpool::Task;
use workpool::WorkQueue;
use workpool::WorkerAction;
use workpool::WorkerState;
use workpool::worker_step;

#[test]
fn queue_hands_tasks_out_in_fifo_order() {
    let mut q = WorkQueue::new();
    assert_eq!(q.len(), 0);
    assert_eq!(q.enqueue(Task::Work(1)), Ok(()));
    assert_eq!(q.enqueue(Task::Work(2)), Ok(()));
    assert_eq!(q.len(), 2);
    assert_eq!(q.dequeue(), DequeueEvent::Received(Task::Work(1)));
    assert_eq!(q.dequeue(), DequeueEvent::Received(Task::Work(2)));
    assert_eq!(q.len(), 0);
}

#[test]
fn enqueue_after_close_is_rejected() {
    // A submission onto a torn-down queue is an explicit error, never a
    // silent no-op.
    let mut q = WorkQueue::new();
    q.close();
    assert_eq!(q.enqueue(Task::Work(9)), Err(QueueError::QueueClosed));
    assert_eq!(q.len(), 0);
}

#[test]
fn drained_closed_queue_signals_closed() {
    let mut q = WorkQueue::new();
    assert_eq!(q.enqueue(Task::Work(7)), Ok(()));
    q.close();
    // The pending task is still delivered after the producer side is gone.
    assert_eq!(q.dequeue(), DequeueEvent::Received(Task::Work(7)));
    assert_eq!(q.dequeue(), DequeueEvent::Closed);
}

#[test]
fn worker_runs_an_application_task_and_keeps_running() {
    let (state, action) = worker_step(
        WorkerState::Running,
        DequeueEvent::Received(Task::Work(6)),
    );
    assert_eq!(state, WorkerState::Running);
    assert_eq!(action, WorkerAction::Run(6));
}

#[test]
fn worker_exits_on_a_termination_marker() {
    let (state, action) = worker_step(
        WorkerState::Running,
        DequeueEvent::Received(Task::Terminate),
    );
    assert_eq!(state, WorkerState::Terminated);
    assert_eq!(action, WorkerAction::Exit);
}

#[test]
fn worker_exits_when_the_queue_closes() {
    let (state, action) = worker_step(WorkerState::Running, DequeueEvent::Closed);
    assert_eq!(state, WorkerState::Terminated);
    assert_eq!(action, WorkerAction::Exit);
}
