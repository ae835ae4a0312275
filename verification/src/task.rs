//! A one-shot, thread-safe unit of deferred work.

use vstd::prelude::*;

verus! {

/// An owned, heap-allocated, argument-less, non-returning callable bound to
/// `Send + Sync` and a process-lifetime bound; invoked exactly once, then
/// consumed. No identity, no result channel, no cancellation handle.
///
/// The boxed callable is a `dyn Fn() + Send + Sync + 'static`, a type the
/// verifier does not support (`dyn` with more than one trait), so the struct
/// body and its two operations are opaque to it: nothing is claimed about
/// what running the callable does.
#[verifier::external_body]
pub struct Task {
    func: Box<dyn Fn() + Send + Sync + 'static>,
}

impl Task {
    /// Wraps `func` as a unit of work. Opaque to the verifier: it boxes a
    /// callable type the verifier does not support.
    #[verifier::external_body]
    pub fn new<F>(func: F) -> Task where F: Fn() + Send + Sync + 'static {
        Task { func: Box::new(func) }
    }

    /// Consumes the task and runs its callable exactly once. Opaque to the
    /// verifier: it calls through a callable type the verifier does not
    /// support. A panic in the callable propagates to the running thread.
    #[verifier::external_body]
    pub fn invoke(self) {
        (self.func)()
    }
}

} // verus!
