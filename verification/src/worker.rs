//! The decision core of the single-dedicated-thread worker: the mailbox
//! signal and the verified bookkeeping of how many submitted tasks are not
//! yet finished.
//!
//! The operating-system side (the channel, the dedicated thread, joining on
//! drop) lives with the embedding application; the dedicated thread decides
//! what to do with each received signal through [`handle_signal`], and both
//! sides keep the queued count with the transitions here.

use crate::task::Task;
use vstd::prelude::*;

verus! {

/// What travels through the worker's mailbox: a task to run, or the order
/// to exit the receive loop immediately. Unlike the pool's drain phase,
/// signals still in the mailbox after `Close` are dropped with the channel.
pub enum WorkerSignal {
    Run(Task),
    Close,
}

/// The dedicated thread's decision on a received signal: the task to run,
/// or `None` to exit the loop immediately.
pub fn handle_signal(signal: WorkerSignal) -> (job: Option<Task>)
    ensures
        match signal {
            WorkerSignal::Run(task) => job == Some(task),
            WorkerSignal::Close => job is None,
        },
{
    match signal {
        WorkerSignal::Run(task) => Some(task),
        WorkerSignal::Close => None,
    }
}

/// A submission was sent: one more task is queued. The count is kept as
/// tasks sent minus tasks completed, so it is non-negative in steady state
/// but transiently read between the paired increments and decrements.
pub fn note_submitted(queued: isize) -> (r: isize)
    requires
        queued < isize::MAX,
    ensures
        r == queued + 1,
{
    queued + 1
}

/// A received task finished running: one fewer task is queued.
pub fn note_completed(queued: isize) -> (r: isize)
    requires
        queued > isize::MIN,
    ensures
        r == queued - 1,
{
    queued - 1
}

/// True exactly when every task sent so far has completed: the worker's
/// advisory idle snapshot.
pub fn is_idle(queued: isize) -> (r: bool)
    ensures
        r == (queued == 0),
{
    queued == 0
}

} // verus!
