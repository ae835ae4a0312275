use rhythm::spinlock::SpinLock;
use std::sync::atomic::AtomicUsize;
use std::sync::atomic::Ordering;
use std::sync::Arc;

#[test]
fn spinlock_mutual_exclusion_test() {
    for &workers in &[1usize, 4, 16] {
        let lock = Arc::new(SpinLock::new());
        let counter = Arc::new(AtomicUsize::new(0));
        let pool = threadpool::ThreadPool::new(workers);
        for _ in 0..workers {
            let lock = lock.clone();
            let counter = counter.clone();
            pool.execute(move || {
                for _ in 0..1000 {
                    while !lock.try_lock() {}
                    let seen = counter.load(Ordering::Relaxed);
                    counter.store(seen + 1, Ordering::Relaxed);
                    lock.unlock();
                }
            });
        }
        pool.join();
        assert_eq!(counter.load(Ordering::Relaxed), 1000 * workers);
    }
}

#[test]
fn spinlock_try_lock_test() {
    let lock = SpinLock::new();
    assert!(lock.try_lock());
    assert!(!lock.try_lock());
    lock.unlock();
    assert!(lock.try_lock());
    lock.unlock();
}
