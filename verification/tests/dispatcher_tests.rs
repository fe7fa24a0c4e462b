use concurrent_file_processor::dispatcher::{Dispatcher, EnqueueOutcome, FileTask};

fn task(path: &str) -> FileTask {
    FileTask { path: path.to_string() }
}

#[test]
fn queue_backpressure_at_capacity() {
    // Capacity 2: two tasks are accepted, the third must block.
    let mut d = Dispatcher::new(2);
    assert!(matches!(d.try_enqueue(task("a")), EnqueueOutcome::Accepted));
    assert!(matches!(d.try_enqueue(task("b")), EnqueueOutcome::Accepted));
    assert!(matches!(d.try_enqueue(task("c")), EnqueueOutcome::WouldBlock));
    assert_eq!(d.len(), 2);
}

#[test]
fn queue_backpressure_at_default_capacity() {
    // Capacity 32 as configured by default: 32 tasks fit, the 33rd blocks.
    let mut d = Dispatcher::new(32);
    for i in 0..32 {
        let outcome = d.try_enqueue(task(&format!("file-{}", i)));
        assert!(matches!(outcome, EnqueueOutcome::Accepted));
    }
    assert!(matches!(d.try_enqueue(task("straggler")), EnqueueOutcome::WouldBlock));
    assert_eq!(d.len(), 32);
}

#[test]
fn queue_is_fifo() {
    let mut d = Dispatcher::new(8);
    d.try_enqueue(task("first"));
    d.try_enqueue(task("second"));
    d.try_enqueue(task("third"));
    assert_eq!(d.dequeue().unwrap().path, "first");
    assert_eq!(d.dequeue().unwrap().path, "second");
    assert_eq!(d.dequeue().unwrap().path, "third");
    assert!(d.dequeue().is_none());
}

#[test]
fn queue_slot_frees_after_dequeue() {
    let mut d = Dispatcher::new(1);
    assert!(matches!(d.try_enqueue(task("a")), EnqueueOutcome::Accepted));
    assert!(matches!(d.try_enqueue(task("b")), EnqueueOutcome::WouldBlock));
    assert_eq!(d.dequeue().unwrap().path, "a");
    assert!(matches!(d.try_enqueue(task("b")), EnqueueOutcome::Accepted));
    assert_eq!(d.dequeue().unwrap().path, "b");
}

#[test]
fn queue_dequeue_empty_is_none() {
    let mut d = Dispatcher::new(4);
    assert!(d.dequeue().is_none());
    assert_eq!(d.len(), 0);
}
