//! A busy-wait mutual-exclusion primitive built on a single atomic flag.

use core::sync::atomic::AtomicBool;
use core::sync::atomic::Ordering;
use vstd::prelude::*;

verus! {

/// A spin lock flag: callers busy-wait by retrying [`try_lock`](Self::try_lock)
/// (a compare-and-swap) until it succeeds, and release ownership with
/// [`unlock`](Self::unlock).
///
/// The primitive is caller-synchronized, mirroring a raw mutex rather than a
/// checked one: a thread must not call `unlock` without a prior successful
/// `try_lock`, and must not retry `try_lock` after winning it without an
/// intervening `unlock`. There is no fairness guarantee, no reentrancy, and
/// no poisoning on panic: critical sections must be panic-free, or the lock
/// stays held forever.
pub struct SpinLock {
    flag: AtomicBool,
}

impl SpinLock {
    /// Creates an unheld lock.
    pub fn new() -> SpinLock {
        SpinLock { flag: AtomicBool::new(false) }
    }

    /// Makes one attempt to win the flag, returning whether the calling
    /// thread now has exclusive ownership. A successful exchange uses
    /// acquire ordering, so all subsequent reads by the holder observe the
    /// writes made by the previous holder before its release; callers
    /// retry in a tight loop until it succeeds.
    #[must_use]
    pub fn try_lock(&self) -> bool {
        self.flag.compare_exchange(
            false,
            true,
            Ordering::Acquire,
            Ordering::Relaxed,
        ).is_ok()
    }

    /// Releases ownership with a release store.
    pub fn unlock(&self) {
        self.flag.store(false, Ordering::Release);
    }
}

} // verus!
