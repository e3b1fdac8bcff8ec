use vstd::prelude::*;

use crate::task::Task;

verus! {

/// The error a producer sees when it enqueues onto a queue whose receiving
/// side is gone: the submission is rejected, never silently dropped.
#[derive(Clone, Copy, Debug, PartialEq, Eq)]
pub enum QueueError {
    QueueClosed,
}

/// What a worker observes when it asks the queue for work: either the next
/// task in FIFO order, or the signal that the queue is permanently closed
/// and empty, so no task will ever arrive again.
#[derive(Clone, Copy, Debug, PartialEq, Eq)]
pub enum DequeueEvent {
    Received(Task),
    Closed,
}

/// The work queue: an unbounded FIFO channel of tasks between producers and
/// workers. Its view is the sequence of pending tasks, oldest first.
///
/// The real hand-off structure is concurrent; this model is its sequential
/// contract: each task is delivered to exactly one consumer, in submission
/// order. `close` models dropping the last producer handle.
pub struct WorkQueue {
    items: Vec<Task>,
    open: bool,
}

impl View for WorkQueue {
    type V = Seq<Task>;

    closed spec fn view(&self) -> Seq<Task> {
        self.items@
    }
}

impl WorkQueue {
    /// Whether a producer handle still exists, so that `enqueue` succeeds.
    pub closed spec fn is_open(&self) -> bool {
        self.open
    }

    /// A fresh queue: empty, with its producer side live.
    pub fn new() -> (q: WorkQueue)
        ensures
            q@.len() == 0,
            q.is_open(),
    {
        WorkQueue { items: Vec::new(), open: true }
    }

    /// Appends a task at the back of the queue. Never blocks; succeeds
    /// exactly when the queue is still open, and otherwise rejects the task
    /// with `QueueClosed`, leaving the queue unchanged.
    pub fn enqueue(&mut self, t: Task) -> (r: Result<(), QueueError>)
        ensures
            old(self).is_open() ==> {
                &&& r is Ok
                &&& final(self)@ == old(self)@.push(t)
                &&& final(self).is_open()
            },
            !old(self).is_open() ==> {
                &&& r == Err::<(), QueueError>(QueueError::QueueClosed)
                &&& *final(self) == *old(self)
            },
    {
        if self.open {
            self.items.push(t);
            Ok(())
        } else {
            Err(QueueError::QueueClosed)
        }
    }

    /// Hands out the oldest pending task, or reports the queue closed when
    /// it is empty and no producer remains.
    ///
    /// The real dequeue blocks while the queue is empty but still open; a
    /// blocked call returns nothing, so the sequential model leaves that
    /// case out: the caller only asks when a task is pending or the queue
    /// is closed.
    pub fn dequeue(&mut self) -> (r: DequeueEvent)
        requires
            old(self)@.len() > 0 || !old(self).is_open(),
        ensures
            old(self)@.len() > 0 ==> {
                &&& r == DequeueEvent::Received(old(self)@[0])
                &&& final(self)@ == old(self)@.drop_first()
                &&& final(self).is_open() == old(self).is_open()
            },
            old(self)@.len() == 0 ==> {
                &&& r == DequeueEvent::Closed
                &&& *final(self) == *old(self)
            },
    {
        if self.items.len() > 0 {
            let t = self.items.remove(0);
            proof {
                assert(self.items@ =~= old(self)@.drop_first());
            }
            DequeueEvent::Received(t)
        } else {
            DequeueEvent::Closed
        }
    }

    /// Releases the producer side: every later `enqueue` fails, and once
    /// the pending tasks are drained, `dequeue` reports `Closed`.
    pub fn close(&mut self)
        ensures
            final(self)@ == old(self)@,
            !final(self).is_open(),
    {
        self.open = false;
    }

    /// The number of pending tasks.
    pub fn len(&self) -> (n: usize)
        ensures
            n == self@.len(),
    {
        self.items.len()
    }
}

} // verus!
