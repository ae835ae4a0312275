use rhythm::buffer::RingBuffer;
use std::sync::atomic::AtomicBool;
use std::sync::atomic::Ordering;
use std::sync::Arc;

#[test]
fn new_ring_buffer_test() {
    let ring = RingBuffer::<i32>::new(5);
    assert_eq!(ring.size(), 5);
    assert_eq!(ring.filled(), false);
    assert_eq!(ring.len(), 0);
}

#[test]
fn push_test() {
    let mut ring = RingBuffer::new(5);
    ring.push(1);
    ring.push(2);
    ring.push(3);
    assert_eq!(ring.len(), 3);
    assert_eq!(ring.get_all(), [1, 2, 3]);
}

#[test]
fn overflow_test() {
    let mut ring = RingBuffer::new(3);
    ring.push(1);
    ring.push(2);
    ring.push(3);
    ring.push(4);
    ring.push(5);
    ring.push(6);
    assert_eq!(ring.len(), 3);
    assert_eq!(ring.get_all(), [4, 5, 6]);
    assert!(ring.filled());
}

#[test]
fn get_unfilled_test() {
    let mut ring = RingBuffer::new(5);
    ring.push(1);
    ring.push(2);
    ring.push(3);
    assert_eq!(ring.get(2), [2, 3]);
}

#[test]
fn get_filled_test() {
    let mut ring = RingBuffer::new(3);
    ring.push(1);
    ring.push(2);
    ring.push(3);
    ring.push(4);
    ring.push(5);
    assert!(ring.filled());
    assert_eq!(ring.get(2), [4, 5]);
}

#[test]
fn get_wraparound_test() {
    let mut ring = RingBuffer::new(3);
    ring.push(1);
    ring.push(2);
    ring.push(3);
    ring.push(4);
    ring.push(5);
    assert!(ring.filled());
    assert_eq!(ring.get(3), [3, 4, 5]);
}

#[test]
fn get_window_limits_test() {
    let mut ring = RingBuffer::new(5);
    ring.push(1);
    ring.push(2);
    ring.push(3);
    assert_eq!(ring.get(2), [2, 3]);
    assert_eq!(ring.get(10), [1, 2, 3]);
    assert_eq!(ring.get(0), []);
}

#[test]
fn get_idempotent_test() {
    let mut ring = RingBuffer::new(3);
    for value in 1..=5 {
        ring.push(value);
    }
    let first = ring.get(2);
    let second = ring.get(2);
    assert_eq!(first, second);
    let all_first = ring.get_all();
    let all_second = ring.get_all();
    assert_eq!(all_first, all_second);
}

#[test]
fn get_and_do_test() {
    let mut ring = RingBuffer::new(4);
    ring.push(7);
    ring.push(8);
    let ran = Arc::new(AtomicBool::new(false));
    let flag = ran.clone();
    let snapshot = ring.get_and_do(2, move || {
        flag.store(true, Ordering::Relaxed);
    });
    assert_eq!(snapshot, [7, 8]);
    assert!(ran.load(Ordering::Relaxed));
    assert_eq!(ring.get_and_do(0, || panic!("not reached")), []);
}
