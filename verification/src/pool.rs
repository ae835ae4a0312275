//! The scheduling core of the fixed-size thread pool: its builder, the
//! shared status, and the verified transitions that the pool handle and its
//! worker threads take on the jointly owned state.
//!
//! The operating-system side (spawning the worker threads, the mutex and
//! condition variable around [`SharedData`], joining on drop) lives with the
//! embedding application; every decision it takes on the shared state goes
//! through the verified methods here.

use crate::task::Task;
use std::collections::VecDeque;
use vstd::prelude::*;

verus! {

/// The state shared by a pool handle and every worker thread:
/// `Pending(count)` with the number of enqueued-but-unclaimed tasks, or
/// `Closing`, the terminal state in which no further tasks are accepted.
#[derive(Clone, Copy, PartialEq, Eq, Structural)]
pub enum ThreadPoolStatus {
    Pending(usize),
    Closing,
}

/// What a worker thread is to do next, as decided by
/// [`SharedData::claim`].
pub enum ClaimStep {
    /// A task was claimed: run it, then report back with
    /// [`SharedData::task_finished`].
    Run(Task),
    /// Nothing is pending: wait for a wake-up, then ask again (a spurious
    /// wake simply asks again).
    Wait,
    /// The pool is closing: leave the claim loop and drain the queue with
    /// [`SharedData::drain_next`].
    Exit,
}

/// The state jointly owned by a pool handle and its worker threads: the
/// status, the first-in-first-out job queue, and the count of tasks
/// currently executing (claimed but not yet finished).
///
/// The embedding application holds one `SharedData` behind a mutex paired
/// with a condition variable and calls the methods here under that lock.
pub struct SharedData {
    status: ThreadPoolStatus,
    jobs: VecDeque<Task>,
    running: usize,
    claimed: Ghost<Seq<Task>>,
}

impl SharedData {
    /// The current status.
    pub closed spec fn status(self) -> ThreadPoolStatus {
        self.status
    }

    /// The queued tasks, front (next to be claimed) first.
    pub closed spec fn queue(self) -> Seq<Task> {
        self.jobs@
    }

    /// How many tasks are currently executing.
    pub closed spec fn running(self) -> int {
        self.running as int
    }

    /// The tasks already handed to a worker thread (claimed or drained),
    /// in the order they were handed out.
    pub closed spec fn claimed(self) -> Seq<Task> {
        self.claimed@
    }

    /// Every task ever pushed to the queue, in submission order: first
    /// those already handed out, then those still queued. Claiming and
    /// draining preserve this sequence, so no queued task is lost and none
    /// is handed out twice.
    pub open spec fn enqueued(self) -> Seq<Task> {
        self.claimed() + self.queue()
    }

    /// Whether the pool has begun shutting down.
    pub open spec fn is_closing(self) -> bool {
        self.status() is Closing
    }

    /// The enqueued-but-unclaimed count recorded in the status.
    pub open spec fn pending(self) -> int {
        match self.status() {
            ThreadPoolStatus::Pending(count) => count as int,
            ThreadPoolStatus::Closing => 0,
        }
    }

    /// The pending count never exceeds the queue length: a task is enqueued
    /// before it is announced, so every announced task can be popped.
    pub open spec fn well_formed(self) -> bool {
        self.status() matches ThreadPoolStatus::Pending(count) ==> count <= self.queue().len()
    }

    /// Fresh shared state: accepting submissions, empty queue, nothing
    /// running.
    pub fn new() -> (r: SharedData)
        ensures
            r.well_formed(),
            r.status() == ThreadPoolStatus::Pending(0usize),
            r.queue() == Seq::<Task>::empty(),
            r.running() == 0,
            r.claimed() == Seq::<Task>::empty(),
    {
        SharedData {
            status: ThreadPoolStatus::Pending(0),
            jobs: VecDeque::new(),
            running: 0,
            claimed: Ghost(Seq::empty()),
        }
    }

    /// Pushes `task` to the back of the job queue — before the status is
    /// consulted, so even a rejected submission leaves the task queued and
    /// a draining worker may still run it — then announces it in the
    /// pending count when the pool is open. Returns whether the pool
    /// accepted it: a closing pool announces nothing, and the caller
    /// treats the rejection as a fatal misuse, as submission after
    /// shutdown began is a programming error.
    pub fn submit(&mut self, task: Task) -> (accepted: bool)
        requires
            old(self).well_formed(),
            old(self).queue().len() < usize::MAX,
        ensures
            final(self).well_formed(),
            accepted == !old(self).is_closing(),
            final(self).queue() == old(self).queue().push(task),
            final(self).claimed() == old(self).claimed(),
            final(self).enqueued() == old(self).enqueued().push(task),
            final(self).running() == old(self).running(),
            old(self).is_closing() ==> final(self).status() == old(self).status(),
            !old(self).is_closing() ==> {
                &&& final(self).pending() == old(self).pending() + 1
                &&& final(self).status() == ThreadPoolStatus::Pending(
                    (old(self).pending() + 1) as usize,
                )
            },
    {
        let ghost entry = task;
        self.jobs.push_back(task);
        proof {
            assert(self.enqueued() =~= old(self).enqueued().push(entry));
        }
        match self.status {
            ThreadPoolStatus::Pending(count) => {
                self.status = ThreadPoolStatus::Pending(count + 1);
                true
            },
            ThreadPoolStatus::Closing => false,
        }
    }

    /// One round of the worker loop: decides from the status whether to
    /// run the task at the front of the queue, wait for a wake-up, or exit
    /// for the drain phase. Claiming moves the task from the queue into the
    /// running count and decrements the pending count.
    pub fn claim(&mut self) -> (step: ClaimStep)
        requires
            old(self).well_formed(),
            old(self).running() < usize::MAX,
        ensures
            final(self).well_formed(),
            match step {
                ClaimStep::Run(task) => {
                    &&& !old(self).is_closing()
                    &&& old(self).pending() > 0
                    &&& task == old(self).queue()[0]
                    &&& final(self).queue() == old(self).queue().drop_first()
                    &&& final(self).claimed() == old(self).claimed().push(task)
                    &&& final(self).enqueued() == old(self).enqueued()
                    &&& final(self).pending() == old(self).pending() - 1
                    &&& final(self).running() == old(self).running() + 1
                    &&& !final(self).is_closing()
                },
                ClaimStep::Wait => {
                    &&& *final(self) == *old(self)
                    &&& old(self).status() == ThreadPoolStatus::Pending(0usize)
                },
                ClaimStep::Exit => {
                    &&& *final(self) == *old(self)
                    &&& old(self).is_closing()
                },
            },
    {
        match self.status {
            ThreadPoolStatus::Closing => ClaimStep::Exit,
            ThreadPoolStatus::Pending(count) => {
                if count == 0 {
                    ClaimStep::Wait
                } else {
                    self.status = ThreadPoolStatus::Pending(count - 1);
                    self.running = self.running + 1;
                    let job = self.jobs.pop_front();
                    let task = job.unwrap();
                    self.claimed = Ghost(self.claimed@.push(task));
                    proof {
                        assert(self.queue() =~= old(self).queue().drop_first());
                        assert(self.enqueued() =~= old(self).enqueued());
                    }
                    ClaimStep::Run(task)
                }
            },
        }
    }

    /// Reports a claimed task as finished, leaving the running count.
    pub fn task_finished(&mut self)
        requires
            old(self).well_formed(),
            old(self).running() > 0,
        ensures
            final(self).well_formed(),
            final(self).running() == old(self).running() - 1,
            final(self).status() == old(self).status(),
            final(self).queue() == old(self).queue(),
            final(self).claimed() == old(self).claimed(),
    {
        self.running = self.running - 1;
    }

    /// Begins shutdown: no further tasks are accepted; the queue and the
    /// running count are untouched, so already-accepted work remains to be
    /// drained.
    pub fn close(&mut self)
        ensures
            final(self).well_formed(),
            final(self).is_closing(),
            final(self).queue() == old(self).queue(),
            final(self).running() == old(self).running(),
            final(self).claimed() == old(self).claimed(),
    {
        self.status = ThreadPoolStatus::Closing;
    }

    /// The drain phase of a shutting-down worker: pops the next remaining
    /// task, front first, with no further status checks; `None` exactly
    /// when the queue is empty. Repeating until `None` hands out every
    /// task still queued when shutdown began, and any pushed by a rejected
    /// submission since.
    pub fn drain_next(&mut self) -> (job: Option<Task>)
        requires
            old(self).is_closing(),
        ensures
            final(self).well_formed(),
            final(self).is_closing(),
            final(self).running() == old(self).running(),
            match job {
                Some(task) => {
                    &&& old(self).queue().len() > 0
                    &&& task == old(self).queue()[0]
                    &&& final(self).queue() == old(self).queue().drop_first()
                    &&& final(self).claimed() == old(self).claimed().push(task)
                    &&& final(self).enqueued() == old(self).enqueued()
                },
                None => {
                    &&& old(self).queue().len() == 0
                    &&& final(self).queue() == old(self).queue()
                    &&& final(self).status() == old(self).status()
                    &&& final(self).claimed() == old(self).claimed()
                },
            },
    {
        let job = self.jobs.pop_front();
        match &job {
            Some(task) => {
                self.claimed = Ghost(self.claimed@.push(*task));
                proof {
                    assert(self.queue() =~= old(self).queue().drop_first());
                    assert(self.enqueued() =~= old(self).enqueued());
                }
            },
            None => {},
        }
        job
    }

    /// Whether the pool has begun shutting down.
    pub fn closing(&self) -> (r: bool)
        ensures
            r == self.is_closing(),
    {
        match self.status {
            ThreadPoolStatus::Closing => true,
            ThreadPoolStatus::Pending(_) => false,
        }
    }

    /// How many tasks are currently executing.
    pub fn running_count(&self) -> (r: usize)
        ensures
            r == self.running(),
    {
        self.running
    }

    /// How many tasks are queued and not yet claimed or drained.
    pub fn queue_len(&self) -> (r: usize)
        ensures
            r == self.queue().len(),
    {
        self.jobs.len()
    }

    /// True exactly when no task is executing and the queue is empty: a
    /// best-effort snapshot for polling loops, stale the instant the lock
    /// is released.
    pub fn done(&self) -> (r: bool)
        ensures
            r == (self.running() == 0 && self.queue().len() == 0),
    {
        self.running == 0 && self.jobs.len() == 0
    }
}

/// Graceful drain: once the queue has been drained empty, the tasks handed
/// to worker threads are exactly the tasks ever pushed to the queue, in
/// submission order — no queued task is lost and none is handed out
/// twice. With [`SharedData::close`] leaving the queue untouched and
/// [`SharedData::drain_next`] handing the remainder out until it returns
/// `None`, every task queued before the drain phase ends is handed out by
/// then, including any pushed by a rejected submission during shutdown.
pub proof fn lemma_drained_pool_ran_everything(pool: SharedData)
    requires
        pool.queue().len() == 0,
    ensures
        pool.claimed() == pool.enqueued(),
{
    assert(pool.claimed() =~= pool.enqueued());
}

/// Configuration for a fixed-size pool: a thread-name prefix and a worker
/// count, defaulting to an anonymous name and the host's logical CPU count.
pub struct ThreadPoolBuilder {
    name: Option<String>,
    workers: usize,
}

/// Relies on `num_cpus::get`: the number of logical CPUs available to the
/// process, documented to always be at least 1.
#[verifier::external_body]
fn host_cpu_count() -> (r: usize)
    ensures
        r >= 1,
{
    num_cpus::get()
}

impl Default for ThreadPoolBuilder {
    /// An anonymous builder with one worker per host CPU.
    fn default() -> (r: ThreadPoolBuilder)
        ensures
            r.chosen_name() is None,
            r.worker_count() >= 1,
    {
        ThreadPoolBuilder { name: None, workers: host_cpu_count() }
    }
}

impl ThreadPoolBuilder {
    /// The configured thread-name prefix, if any.
    pub closed spec fn chosen_name(self) -> Option<String> {
        self.name
    }

    /// The configured number of worker threads.
    pub closed spec fn worker_count(self) -> int {
        self.workers as int
    }

    /// An anonymous builder with one worker per host CPU.
    pub fn new() -> (r: ThreadPoolBuilder)
        ensures
            r.chosen_name() is None,
            r.worker_count() >= 1,
    {
        ThreadPoolBuilder::default()
    }

    /// A builder already carrying a thread-name prefix.
    pub fn named(name: String) -> (r: ThreadPoolBuilder)
        ensures
            r.chosen_name() == Some(name),
            r.worker_count() >= 1,
    {
        ThreadPoolBuilder::new().name(name)
    }

    /// Sets the thread-name prefix.
    pub fn name(self, name: String) -> (r: ThreadPoolBuilder)
        ensures
            r.chosen_name() == Some(name),
            r.worker_count() == self.worker_count(),
    {
        ThreadPoolBuilder { name: Some(name), ..self }
    }

    /// Overrides the worker count.
    pub fn workers(self, amount: usize) -> (r: ThreadPoolBuilder)
        requires
            amount >= 1,
        ensures
            r.chosen_name() == self.chosen_name(),
            r.worker_count() == amount,
    {
        ThreadPoolBuilder { workers: amount, ..self }
    }

    /// The configured worker count, for the embedding application to spawn
    /// exactly that many threads.
    pub fn worker_amount(&self) -> (r: usize)
        ensures
            r == self.worker_count(),
    {
        self.workers
    }

    /// The configured thread-name prefix, if any, for the embedding
    /// application to name the spawned threads.
    pub fn name_prefix(&self) -> (r: &Option<String>)
        ensures
            r == self.chosen_name(),
    {
        &self.name
    }
}

} // verus!
