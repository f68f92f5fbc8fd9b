//! Scenario tests for the worker-pool dispatcher.

use workpool::channel::{Channel, Message};
use workpool::pool::{Pool, SubmitError};
use workpool::worker::{Action, Worker, WorkerState};

/// Messages leave the channel in exactly the order they were sent.
#[test]
fn channel_is_fifo() {
    let mut c: Channel<u64> = Channel::new();
    c.send(Message::NewJob(1));
    c.send(Message::Terminate);
    c.send(Message::NewJob(2));
    assert_eq!(c.len(), 3);

    match c.receive() {
        Message::NewJob(j) => assert_eq!(j, 1),
        Message::Terminate => panic!("job was sent first"),
    }
    match c.receive() {
        Message::NewJob(_) => panic!("terminate was sent second"),
        Message::Terminate => {}
    }
    match c.receive() {
        Message::NewJob(j) => assert_eq!(j, 2),
        Message::Terminate => panic!("job was sent third"),
    }
    assert_eq!(c.len(), 0);
}

/// A worker runs jobs, survives a panicking one, and stops only on the
/// terminate signal.
#[test]
fn worker_loop_follows_messages() {
    let mut w = Worker::new(3);
    assert_eq!(w.state, WorkerState::Idle);

    match w.on_message(Message::NewJob(9u64)) {
        Action::Run(j) => assert_eq!(j, 9),
        Action::Exit => panic!("a job message never exits"),
    }
    assert_eq!(w.state, WorkerState::Busy);
    w.job_done(true);
    assert_eq!(w.state, WorkerState::Idle);

    match w.on_message(Message::<u64>::Terminate) {
        Action::Run(_) => panic!("terminate runs nothing"),
        Action::Exit => {}
    }
    assert_eq!(w.state, WorkerState::Stopped);
    assert_eq!(w.id, 3);
}

/// With one worker, jobs run in exactly the order they were submitted.
#[test]
fn single_worker_preserves_order() {
    let mut pool: Pool<&'static str> = Pool::new(1);
    pool.submit("A").unwrap();
    pool.submit("B").unwrap();

    let mut log = String::new();
    match pool.deliver(0) {
        Action::Run(j) => log.push_str(j),
        Action::Exit => panic!("no terminate was sent"),
    }
    pool.complete(0, false);
    match pool.deliver(0) {
        Action::Run(j) => log.push_str(j),
        Action::Exit => panic!("no terminate was sent"),
    }
    pool.complete(0, false);

    assert_eq!(log, "AB");
}

/// Four queued jobs start on four distinct workers at once, none waiting for
/// another to finish.
#[test]
fn batch_starts_on_distinct_workers() {
    let mut pool: Pool<u64> = Pool::new(4);
    for j in 0..4u64 {
        pool.submit(j).unwrap();
    }

    let jobs = pool.start_batch(4);

    assert_eq!(jobs, vec![0, 1, 2, 3]);
    for wid in 0..4 {
        assert_eq!(pool.worker_state(wid), WorkerState::Busy);
    }
    assert_eq!(pool.queued(), 0);
}

/// A job that panics does not stop its worker: the next job still runs.
#[test]
fn panicking_job_is_contained() {
    let mut pool: Pool<u64> = Pool::new(2);
    pool.submit(1).unwrap();
    pool.submit(2).unwrap();

    let mut counter: u64 = 0;
    match pool.deliver(0) {
        Action::Run(j) => {
            assert_eq!(j, 1);
            // The job blows up before doing its work; the worker reports the
            // panic and carries on.
            pool.complete(0, true);
        }
        Action::Exit => panic!("no terminate was sent"),
    }
    assert_eq!(pool.worker_state(0), WorkerState::Idle);
    match pool.deliver(0) {
        Action::Run(j) => {
            assert_eq!(j, 2);
            counter += 1;
            pool.complete(0, false);
        }
        Action::Exit => panic!("no terminate was sent"),
    }

    let drained = pool.teardown();
    assert!(drained.is_empty());
    assert_eq!(counter, 1);
}

/// Teardown with no jobs ever submitted returns promptly with every worker
/// stopped.
#[test]
fn teardown_without_jobs_stops_all_workers() {
    let mut pool: Pool<u64> = Pool::new(3);
    let drained = pool.teardown();

    assert!(drained.is_empty());
    assert_eq!(pool.queued(), 0);
    for wid in 0..3 {
        assert_eq!(pool.worker_state(wid), WorkerState::Stopped);
    }
}

/// One hundred trivial jobs under contention: each runs exactly once, none
/// twice, none lost.
#[test]
fn hundred_jobs_run_exactly_once() {
    let mut pool: Pool<u64> = Pool::new(2);
    for j in 0..100u64 {
        pool.submit(j).unwrap();
    }

    let drained = pool.teardown();

    let mut counter: u64 = 0;
    for (i, j) in drained.iter().enumerate() {
        assert_eq!(*j, i as u64);
        counter += 1;
    }
    assert_eq!(counter, 100);
}

/// Jobs still queued when teardown begins are delivered before the stop
/// signals, in submission order.
#[test]
fn teardown_drains_pending_jobs_in_order() {
    let mut pool: Pool<&'static str> = Pool::new(2);
    pool.submit("first").unwrap();
    pool.submit("second").unwrap();
    pool.submit("third").unwrap();

    let drained = pool.teardown();

    assert_eq!(drained, vec!["first", "second", "third"]);
    for wid in 0..2 {
        assert_eq!(pool.worker_state(wid), WorkerState::Stopped);
    }
}

/// A submission racing with shutdown is refused, never silently dropped.
#[test]
fn submit_after_teardown_is_refused() {
    let mut pool: Pool<u64> = Pool::new(1);
    pool.teardown();

    assert_eq!(pool.submit(7), Err(SubmitError::ShuttingDown));
}

/// A busy worker does not block teardown: its job finishes, then it stops.
#[test]
fn teardown_waits_for_busy_worker() {
    let mut pool: Pool<u64> = Pool::new(2);
    pool.submit(5).unwrap();
    match pool.deliver(1) {
        Action::Run(j) => assert_eq!(j, 5),
        Action::Exit => panic!("no terminate was sent"),
    }
    assert_eq!(pool.worker_state(1), WorkerState::Busy);

    let drained = pool.teardown();

    assert!(drained.is_empty());
    assert_eq!(pool.worker_state(0), WorkerState::Stopped);
    assert_eq!(pool.worker_state(1), WorkerState::Stopped);
}
