use rhythm::task::Task;
use rhythm::worker::handle_signal;
use rhythm::worker::is_idle;
use rhythm::worker::note_completed;
use rhythm::worker::note_submitted;
use rhythm::worker::WorkerSignal;
use std::sync::atomic::AtomicUsize;
use std::sync::atomic::Ordering;
use std::sync::Arc;

#[test]
fn worker_core_completeness_test() {
    let counter = Arc::new(AtomicUsize::new(0));
    let mut queued: isize = 0;
    let mut mailbox = Vec::new();
    for _ in 0..100 {
        let reference = counter.clone();
        queued = note_submitted(queued);
        mailbox.push(WorkerSignal::Run(Task::new(move || {
            reference.fetch_add(1, Ordering::Relaxed);
        })));
    }
    mailbox.push(WorkerSignal::Close);
    assert!(!is_idle(queued));
    for signal in mailbox {
        match handle_signal(signal) {
            Some(task) => {
                task.invoke();
                queued = note_completed(queued);
            }
            None => break,
        }
    }
    assert!(is_idle(queued));
    assert_eq!(counter.load(Ordering::Relaxed), 100);
}

#[test]
fn worker_close_signal_test() {
    assert!(handle_signal(WorkerSignal::Close).is_none());
    let job = handle_signal(WorkerSignal::Run(Task::new(|| {})));
    assert!(job.is_some());
}

#[test]
fn worker_counter_test() {
    let queued = note_submitted(0);
    assert_eq!(queued, 1);
    let queued = note_submitted(queued);
    assert_eq!(queued, 2);
    let queued = note_completed(queued);
    let queued = note_completed(queued);
    assert!(is_idle(queued));
}

#[test]
fn task_invoke_test() {
    let counter = Arc::new(AtomicUsize::new(0));
    let reference = counter.clone();
    let task = Task::new(move || {
        reference.fetch_add(5, Ordering::Relaxed);
    });
    assert_eq!(counter.load(Ordering::Relaxed), 0);
    task.invoke();
    assert_eq!(counter.load(Ordering::Relaxed), 5);
}
