//! Tests of the worker pool's job counter, worker lifecycle machine and
//! whole-pool model.

use hello_server::pool::{PoolError, PoolModel, ThreadPoolInner, WorkerEvent, WorkerState, worker_step};

#[test]
fn fresh_counter_is_empty() {
    let inner = ThreadPoolInner::default();
    assert!(inner.wait_empty());
    assert_eq!(inner.pending_jobs(), 0);
}

#[test]
fn counter_tracks_start_and_finish() {
    let mut inner = ThreadPoolInner::default();
    inner.start_job();
    assert!(!inner.wait_empty());
    assert_eq!(inner.pending_jobs(), 1);
    inner.start_job();
    assert_eq!(inner.pending_jobs(), 2);
    inner.finish_job();
    assert!(!inner.wait_empty());
    inner.finish_job();
    assert!(inner.wait_empty());
    assert_eq!(inner.pending_jobs(), 0);
}

#[test]
fn queued_jobs_keep_the_drain_waiting() {
    // A submitted job counts as pending before any worker picks it up:
    // a drain cannot slip through while work is still in the queue.
    let mut p = PoolModel::new(1).unwrap();
    p.submit();
    assert!(!p.inner.wait_empty());
    assert_eq!(p.inner.pending_jobs(), 1);
    assert_eq!(p.finished, 0);
    p.start_next();
    assert!(!p.inner.wait_empty());
    p.finish_next(true);
    assert!(p.inner.wait_empty());
    assert_eq!(p.finished, 1);
}

#[test]
fn zero_workers_is_rejected() {
    let r = PoolModel::new(0);
    assert_eq!(r.err(), Some(PoolError::ZeroWorkers));
}

#[test]
fn positive_worker_count_is_accepted() {
    let p = PoolModel::new(4).unwrap();
    assert_eq!(p.workers, 4);
    assert_eq!(p.submitted, 0);
    assert_eq!(p.finished, 0);
    assert!(p.accepting);
    assert!(!p.failed);
}

#[test]
fn worker_lifecycle_transitions() {
    let s = WorkerState::Idle;
    let s = worker_step(s, WorkerEvent::Dequeued);
    assert_eq!(s, WorkerState::Running);
    let s = worker_step(s, WorkerEvent::JobDone);
    assert_eq!(s, WorkerState::Idle);
    let s = worker_step(s, WorkerEvent::ChannelClosed);
    assert_eq!(s, WorkerState::Terminated);
}

#[test]
fn hundred_jobs_drain_and_teardown() {
    // Four workers, one hundred jobs, each bumping a shared counter;
    // after the drain the counter shows every job ran, and tearing the
    // pool down leaves no worker alive.
    let mut p = PoolModel::new(4).unwrap();
    let mut counter: u64 = 0;
    for _ in 0..100 {
        p.submit();
    }
    assert_eq!(p.submitted, 100);
    assert_eq!(p.queued, 100);
    // All hundred jobs are pending from the moment of submission, so a
    // drain started now would block instead of returning early.
    assert!(!p.inner.wait_empty());
    assert_eq!(p.inner.pending_jobs(), 100);
    while p.queued > 0 {
        p.start_next();
        counter += 1;
        p.finish_next(true);
    }
    // What a finished drain observes: the counter is back to zero.
    assert!(p.inner.wait_empty());
    assert_eq!(counter, 100);
    assert_eq!(p.finished, 100);
    p.close();
    let r = p.join_workers();
    assert!(r.is_ok());
    assert_eq!(p.workers, 0);
}

#[test]
fn interleaved_submissions_still_drain() {
    let mut p = PoolModel::new(2).unwrap();
    p.submit();
    p.submit();
    p.start_next();
    p.submit();
    p.start_next();
    p.finish_next(true);
    p.start_next();
    p.finish_next(true);
    // One job is still executing: the drain predicate must stay false.
    assert!(!p.inner.wait_empty());
    p.finish_next(true);
    assert_eq!(p.finished, 3);
    assert_eq!(p.submitted, 3);
    assert!(p.inner.wait_empty());
}

#[test]
fn panicked_job_fails_teardown_loudly() {
    let mut p = PoolModel::new(2).unwrap();
    p.submit();
    p.submit();
    p.start_next();
    p.finish_next(true);
    p.start_next();
    p.finish_next(false);
    assert!(p.failed);
    p.close();
    let r = p.join_workers();
    assert_eq!(r.err(), Some(PoolError::WorkerPanicked));
    assert_eq!(p.workers, 0);
}

#[test]
fn teardown_without_jobs() {
    let mut p = PoolModel::new(1).unwrap();
    p.close();
    let r = p.join_workers();
    assert!(r.is_ok());
    assert_eq!(p.workers, 0);
    assert_eq!(p.finished, 0);
}
