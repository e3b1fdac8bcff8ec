use workpool::ExecutionRecord;
use workpool::Task;
use workpool::Threadpool;
use workpool::WorkerState;

#[test]
fn it_works() {
    let mut pool = Threadpool::new(8);
    pool.execute(1);
    let report = pool.shutdown();
    assert_eq!(report.executed.len(), 1);
    assert_eq!(report.executed[0].task, 1);
}

#[test]
fn four_workers_hundred_increments() {
    let mut pool = Threadpool::new(4);
    let mut i: u64 = 0;
    while i < 100 {
        pool.execute(i);
        i += 1;
    }
    let report = pool.shutdown();

    // A shared counter each task increments once ends at 0 + 100.
    let mut counter: u64 = 0;
    for record in &report.executed {
        counter += 1;
        assert!(record.worker < 4);
    }
    assert_eq!(counter, 100);

    // All four workers have terminated.
    assert_eq!(report.workers.len(), 4);
    for state in &report.workers {
        assert_eq!(*state, WorkerState::Terminated);
    }
}

#[test]
fn single_worker_preserves_submission_order() {
    let mut pool = Threadpool::new(1);
    pool.execute(1);
    pool.execute(2);
    pool.execute(3);
    let report = pool.shutdown();

    // Each task appends its index to a shared log: the log reads 1, 2, 3.
    let mut log: Vec<u64> = Vec::new();
    for record in &report.executed {
        log.push(record.task);
    }
    assert_eq!(log, vec![1, 2, 3]);
    assert_eq!(
        report.executed,
        vec![
            ExecutionRecord { task: 1, worker: 0 },
            ExecutionRecord { task: 2, worker: 0 },
            ExecutionRecord { task: 3, worker: 0 },
        ]
    );
}

#[test]
fn shutdown_with_no_tasks_terminates_both_workers() {
    let pool = Threadpool::new(2);
    let report = pool.shutdown();
    assert_eq!(report.executed.len(), 0);
    assert_eq!(report.terminations, 2);
    assert_eq!(report.workers.len(), 2);
    assert_eq!(report.workers[0], WorkerState::Terminated);
    assert_eq!(report.workers[1], WorkerState::Terminated);
}

#[test]
fn interleaved_producers_deliver_exactly_once() {
    // Two producers, one submitting even and one submitting odd numbers,
    // interleaved: every task runs exactly once, so a counter incremented
    // once per execution ends at its initial value plus the task count.
    let mut pool = Threadpool::new(3);
    let mut i: u64 = 0;
    while i < 5 {
        pool.execute(2 * i);
        pool.execute(2 * i + 1);
        i += 1;
    }
    let report = pool.shutdown();

    let initial: u64 = 42;
    let mut counter: u64 = initial;
    for _record in &report.executed {
        counter += 1;
    }
    assert_eq!(counter, initial + 10);

    // Each submitted task has exactly one execution record.
    let mut seen: Vec<u64> = Vec::new();
    for record in &report.executed {
        assert!(!seen.contains(&record.task));
        seen.push(record.task);
    }
    assert_eq!(seen.len(), 10);
    let mut id: u64 = 0;
    while id < 10 {
        assert!(seen.contains(&id));
        id += 1;
    }
}

#[test]
fn fifo_per_producer_across_workers() {
    // With several workers racing, tasks from the one producer are still
    // dequeued in submission order.
    let mut pool = Threadpool::new(4);
    pool.execute(10);
    pool.execute(20);
    pool.execute(30);
    let report = pool.shutdown();
    assert_eq!(report.executed.len(), 3);
    assert_eq!(report.executed[0].task, 10);
    assert_eq!(report.executed[1].task, 20);
    assert_eq!(report.executed[2].task, 30);
}

#[test]
fn shutdown_submits_one_marker_per_live_worker() {
    let mut pool = Threadpool::new(3);
    pool.execute(5);
    let report = pool.shutdown();
    assert_eq!(report.terminations, 3);
    // Each of the three live workers consumed exactly one marker.
    assert_eq!(report.marker_consumers, vec![0, 1, 2]);
}

#[test]
fn termination_markers_builds_one_per_worker() {
    let markers = workpool::termination_markers(5);
    assert_eq!(markers.len(), 5);
    for marker in &markers {
        assert_eq!(*marker, Task::Terminate);
    }
    let none = workpool::termination_markers(0);
    assert_eq!(none.len(), 0);
}
