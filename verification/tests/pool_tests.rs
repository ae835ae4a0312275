use rhythm::pool::ClaimStep;
use rhythm::pool::SharedData;
use rhythm::pool::ThreadPoolBuilder;
use rhythm::task::Task;
use std::sync::atomic::AtomicUsize;
use std::sync::atomic::Ordering;
use std::sync::Arc;

#[test]
fn builder_config_test() {
    let builder = ThreadPoolBuilder::new();
    assert!(builder.worker_amount() >= 1);
    assert_eq!(builder.name_prefix(), &None);
    let builder = ThreadPoolBuilder::new().workers(4);
    assert_eq!(builder.worker_amount(), 4);
    let builder = ThreadPoolBuilder::named("pool".to_string()).workers(2);
    assert_eq!(builder.name_prefix(), &Some("pool".to_string()));
    assert_eq!(builder.worker_amount(), 2);
    let builder = ThreadPoolBuilder::new().name("other".to_string());
    assert_eq!(builder.name_prefix(), &Some("other".to_string()));
}

#[test]
fn pool_core_completeness_test() {
    let counter = Arc::new(AtomicUsize::new(0));
    let mut shared = SharedData::new();
    for _ in 0..100 {
        let reference = counter.clone();
        let accepted = shared.submit(Task::new(move || {
            reference.fetch_add(1, Ordering::Relaxed);
        }));
        assert!(accepted);
    }
    assert!(!shared.done());
    loop {
        match shared.claim() {
            ClaimStep::Run(task) => {
                task.invoke();
                shared.task_finished();
            }
            ClaimStep::Wait => break,
            ClaimStep::Exit => unreachable!(),
        }
    }
    assert!(shared.done());
    assert_eq!(counter.load(Ordering::Relaxed), 100);
}

#[test]
fn pool_core_fifo_test() {
    let order = Arc::new(std::sync::Mutex::new(Vec::new()));
    let mut shared = SharedData::new();
    for index in 0..10 {
        let log = order.clone();
        assert!(shared.submit(Task::new(move || {
            log.lock().unwrap().push(index);
        })));
    }
    loop {
        match shared.claim() {
            ClaimStep::Run(task) => {
                task.invoke();
                shared.task_finished();
            }
            ClaimStep::Wait => break,
            ClaimStep::Exit => unreachable!(),
        }
    }
    assert_eq!(*order.lock().unwrap(), (0..10).collect::<Vec<_>>());
}

#[test]
fn pool_core_drain_test() {
    let counter = Arc::new(AtomicUsize::new(0));
    let mut shared = SharedData::new();
    for _ in 0..50 {
        let reference = counter.clone();
        assert!(shared.submit(Task::new(move || {
            reference.fetch_add(1, Ordering::Relaxed);
        })));
    }
    shared.close();
    assert!(matches!(shared.claim(), ClaimStep::Exit));
    while let Some(task) = shared.drain_next() {
        task.invoke();
    }
    assert_eq!(counter.load(Ordering::Relaxed), 50);
    assert!(shared.drain_next().is_none());
}

#[test]
fn pool_core_rejects_after_close_test() {
    let counter = Arc::new(AtomicUsize::new(0));
    let mut shared = SharedData::new();
    shared.close();
    let reference = counter.clone();
    let accepted = shared.submit(Task::new(move || {
        reference.fetch_add(1, Ordering::Relaxed);
    }));
    assert!(!accepted);
    assert!(shared.closing());
    // The task was enqueued ahead of the rejection, so the drain phase
    // still runs it.
    while let Some(task) = shared.drain_next() {
        task.invoke();
    }
    assert_eq!(counter.load(Ordering::Relaxed), 1);
}

#[test]
fn pool_core_wait_when_idle_test() {
    let mut shared = SharedData::new();
    assert!(matches!(shared.claim(), ClaimStep::Wait));
    assert!(shared.done());
}
