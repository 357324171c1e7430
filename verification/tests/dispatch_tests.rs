use nats_messaging::dispatch::{
    receive_step, service_reply_subject, AcquireOutcome, LoopAction, LoopEvent, SubMessage,
    WorkerPool, DEFAULT_POOL_CAPACITY,
};

fn msg(subject: &str) -> SubMessage {
    SubMessage { subject: subject.to_string(), reply_to: None, body: vec![] }
}

#[test]
fn pool_grants_at_most_capacity_permits() {
    // with capacity three, a fourth concurrent dispatch must wait
    let mut pool = WorkerPool::new(3);
    assert!(matches!(pool.try_acquire(), AcquireOutcome::Granted));
    assert!(matches!(pool.try_acquire(), AcquireOutcome::Granted));
    assert!(matches!(pool.try_acquire(), AcquireOutcome::Granted));
    assert!(matches!(pool.try_acquire(), AcquireOutcome::Exhausted));
    assert_eq!(pool.in_flight, 3);
    // a released permit frees one slot for the queued message
    pool.release();
    assert!(matches!(pool.try_acquire(), AcquireOutcome::Granted));
    assert!(matches!(pool.try_acquire(), AcquireOutcome::Exhausted));
}

#[test]
fn closed_pool_grants_nothing() {
    let mut pool = WorkerPool::new(2);
    pool.close();
    assert!(matches!(pool.try_acquire(), AcquireOutcome::Closed));
}

#[test]
fn default_capacity_is_seventy_five() {
    let pool = WorkerPool::new(DEFAULT_POOL_CAPACITY);
    assert_eq!(pool.capacity, 75);
}

#[test]
fn receive_loop_dispatches_under_permit() {
    let mut pool = WorkerPool::new(1);
    let action = receive_step(&mut pool, LoopEvent::Delivered(msg("a")));
    match action {
        LoopAction::Dispatch(m) => assert_eq!(m.subject, "a"),
        _ => panic!("expected a dispatch"),
    }
    assert_eq!(pool.in_flight, 1);
    // the pool is full: the next message is held back, not dropped
    let action = receive_step(&mut pool, LoopEvent::Delivered(msg("b")));
    match action {
        LoopAction::Backpressure(m) => assert_eq!(m.subject, "b"),
        _ => panic!("expected backpressure"),
    }
    assert_eq!(pool.in_flight, 1);
    // a finished dispatch frees the permit and the held message goes out
    pool.release();
    let action = receive_step(&mut pool, LoopEvent::Delivered(msg("b")));
    assert!(matches!(action, LoopAction::Dispatch(_)));
}

#[test]
fn receive_loop_exits_on_end_and_on_closed_pool() {
    let mut pool = WorkerPool::new(1);
    assert!(matches!(receive_step(&mut pool, LoopEvent::Ended), LoopAction::ExitLoop));
    pool.close();
    let action = receive_step(&mut pool, LoopEvent::Delivered(msg("a")));
    assert!(matches!(action, LoopAction::ExitLoop));
}

#[test]
fn service_reply_subject_defaults() {
    assert_eq!(service_reply_subject(&Some("inbox.7".to_string())), "inbox.7");
    assert_eq!(service_reply_subject(&None), "default");
}
