//! Worker-pool state: the shared job counter that backs the pool's
//! blocking drain, the per-worker lifecycle machine, and a whole-pool
//! model used to state the pool's global laws.

use vstd::prelude::*;

verus! {

/// Shared pending-job counter of a worker pool.
///
/// The counter holds every job that was submitted and has not yet
/// finished — queued or executing alike. The submitter increments it
/// *before* the job is handed to the queue, and the worker that ran the
/// job's body decrements it afterwards, so the counter is zero exactly
/// when no job is queued or executing, and a drain that observes zero
/// knows that every job submitted before it has completed. The
/// concurrent shell keeps one `ThreadPoolInner` behind a mutex that is
/// paired with a condition variable: each mutation below is one
/// critical section, and `wait_empty` is the predicate that the waiter
/// re-checks on every wakeup.
pub struct ThreadPoolInner {
    job_count: usize,
}

impl ThreadPoolInner {
    /// Number of pending jobs: submitted and not yet finished.
    pub closed spec fn count(&self) -> usize {
        self.job_count
    }

    /// Read the current job count. The shell checks it before the
    /// counter updates below, whose bounds are stated as preconditions.
    pub fn pending_jobs(&self) -> (n: usize)
        ensures
            n == self.count(),
    {
        self.job_count
    }

    /// Increment the job count: a job enters the pool. The submitter
    /// calls this before the job reaches the queue, so no moment exists
    /// at which a submitted job is invisible to the counter.
    pub fn start_job(&mut self)
        requires
            old(self).count() < usize::MAX,
        ensures
            final(self).count() == old(self).count() + 1,
    {
        self.job_count = self.job_count + 1;
    }

    /// Decrement the job count: a worker finished running a job body.
    pub fn finish_job(&mut self)
        requires
            old(self).count() > 0,
        ensures
            final(self).count() == old(self).count() - 1,
    {
        self.job_count = self.job_count - 1;
    }

    /// The drain predicate: true exactly when no job is queued or
    /// executing, i.e. every job submitted so far has finished.
    ///
    /// A thread that drains the pool re-checks this under the lock after
    /// every condition-variable wakeup and blocks again while it is false.
    pub fn wait_empty(&self) -> (empty: bool)
        ensures
            empty == (self.count() == 0),
    {
        self.job_count == 0
    }
}

impl Default for ThreadPoolInner {
    /// A fresh tracker: no job is in flight.
    fn default() -> (r: Self)
        ensures
            r.count() == 0,
    {
        ThreadPoolInner { job_count: 0 }
    }
}

/// Errors of the pool model.
#[derive(Clone, Copy, PartialEq, Eq, Structural, Debug)]
pub enum PoolError {
    /// A pool was requested with zero worker threads.
    ZeroWorkers,
    /// A worker's job panicked; tearing the pool down surfaces the failure.
    WorkerPanicked,
}

/// Lifecycle states of a single worker thread.
#[derive(Clone, Copy, PartialEq, Eq, Structural, Debug)]
pub enum WorkerState {
    /// Blocked on the shared queue, waiting for a job.
    Idle,
    /// Executing the body of a dequeued job.
    Running,
    /// The queue reported closed-and-empty; the worker's loop has ended.
    Terminated,
}

/// Events a worker thread can observe.
#[derive(Clone, Copy, PartialEq, Eq, Structural, Debug)]
pub enum WorkerEvent {
    /// The queue handed the worker a job.
    Dequeued,
    /// The body of the current job finished running.
    JobDone,
    /// The queue is closed and empty: every sender is gone.
    ChannelClosed,
}

/// Whether a worker in state `s` can observe event `e` at all.
pub open spec fn worker_enabled(s: WorkerState, e: WorkerEvent) -> bool {
    match (s, e) {
        (WorkerState::Idle, WorkerEvent::Dequeued) => true,
        (WorkerState::Idle, WorkerEvent::ChannelClosed) => true,
        (WorkerState::Running, WorkerEvent::JobDone) => true,
        _ => false,
    }
}

/// The worker lifecycle machine. These three transitions are the only
/// ones: a worker never re-enters `Running` without dequeuing a new job,
/// and never leaves `Terminated`.
pub open spec fn worker_next(s: WorkerState, e: WorkerEvent) -> WorkerState {
    match (s, e) {
        (WorkerState::Idle, WorkerEvent::Dequeued) => WorkerState::Running,
        (WorkerState::Idle, WorkerEvent::ChannelClosed) => WorkerState::Terminated,
        (WorkerState::Running, WorkerEvent::JobDone) => WorkerState::Idle,
        _ => s,
    }
}

/// A worker's lifecycle after a whole sequence of observed events.
pub open spec fn worker_run(s: WorkerState, evs: Seq<WorkerEvent>) -> WorkerState
    decreases evs.len(),
{
    if evs.len() == 0 {
        s
    } else {
        worker_run(worker_next(s, evs[0]), evs.drop_first())
    }
}

/// Termination is final: once a worker has observed the closed and
/// drained queue and left its loop, no later event revives it.
pub proof fn lemma_terminated_is_final(evs: Seq<WorkerEvent>)
    ensures
        worker_run(WorkerState::Terminated, evs) == WorkerState::Terminated,
    decreases evs.len(),
{
    if evs.len() > 0 {
        lemma_terminated_is_final(evs.drop_first());
    }
}

/// Advance a worker's lifecycle by one observed event.
pub fn worker_step(s: WorkerState, e: WorkerEvent) -> (n: WorkerState)
    requires
        worker_enabled(s, e),
    ensures
        n == worker_next(s, e),
{
    match (s, e) {
        (WorkerState::Idle, WorkerEvent::Dequeued) => WorkerState::Running,
        (WorkerState::Idle, WorkerEvent::ChannelClosed) => WorkerState::Terminated,
        (WorkerState::Running, WorkerEvent::JobDone) => WorkerState::Idle,
        _ => s,
    }
}

/// Counting model of a whole pool.
///
/// Every transition of the running pool — submitting a job, a worker
/// dequeuing it, a job body ending, the submission channel closing, a
/// worker exiting — is one method here, so the bookkeeping that the
/// concurrent shell performs inside its critical sections is verified
/// once and for all against this model.
pub struct PoolModel {
    /// Jobs submitted over the pool's lifetime.
    pub submitted: usize,
    /// Jobs submitted but not yet dequeued by any worker.
    pub queued: usize,
    /// Jobs dequeued and currently executing.
    pub running: usize,
    /// The shared pending-job counter: jobs submitted and not finished.
    pub inner: ThreadPoolInner,
    /// Jobs whose bodies have finished (normally or by panicking).
    pub finished: usize,
    /// Worker threads still alive.
    pub workers: usize,
    /// Whether the submission channel still accepts jobs.
    pub accepting: bool,
    /// Whether some job body panicked.
    pub failed: bool,
}

impl PoolModel {
    /// Well-formedness: every job submitted is queued, running or
    /// finished; the shared counter holds exactly the queued and the
    /// running ones; and never more jobs run than there are live
    /// workers.
    pub open spec fn wf(&self) -> bool {
        &&& self.queued + self.running + self.finished == self.submitted
        &&& self.inner.count() == self.queued + self.running
        &&& self.running <= self.workers
    }

    /// Build a pool with `size` worker threads; a pool without workers
    /// is rejected before anything else happens.
    pub fn new(size: usize) -> (r: Result<PoolModel, PoolError>)
        ensures
            size == 0 <==> r is Err,
            r matches Err(e) ==> e == PoolError::ZeroWorkers,
            r matches Ok(p) ==> p.wf() && p.workers == size && p.submitted == 0
                && p.queued == 0 && p.running == 0 && p.finished == 0
                && p.accepting && !p.failed,
    {
        if size == 0 {
            Err(PoolError::ZeroWorkers)
        } else {
            Ok(PoolModel {
                submitted: 0,
                queued: 0,
                running: 0,
                inner: ThreadPoolInner::default(),
                finished: 0,
                workers: size,
                accepting: true,
                failed: false,
            })
        }
    }

    /// A job is submitted: it is counted as pending first, then joins
    /// the queue, so a drain never misses it. Submitting to a closed
    /// pool is a programmer error and is ruled out here.
    pub fn submit(&mut self)
        requires
            old(self).wf(),
            old(self).accepting,
            old(self).submitted < usize::MAX,
        ensures
            final(self).wf(),
            final(self).submitted == old(self).submitted + 1,
            final(self).queued == old(self).queued + 1,
            final(self).running == old(self).running,
            final(self).finished == old(self).finished,
            final(self).workers == old(self).workers,
            final(self).accepting == old(self).accepting,
            final(self).failed == old(self).failed,
    {
        self.submitted = self.submitted + 1;
        self.queued = self.queued + 1;
        self.inner.start_job();
    }

    /// An idle worker dequeues a job and starts running its body. The
    /// job stays pending: it merely moves from queued to running.
    pub fn start_next(&mut self)
        requires
            old(self).wf(),
            old(self).queued > 0,
            old(self).running < old(self).workers,
        ensures
            final(self).wf(),
            final(self).queued == old(self).queued - 1,
            final(self).running == old(self).running + 1,
            final(self).submitted == old(self).submitted,
            final(self).finished == old(self).finished,
            final(self).workers == old(self).workers,
            final(self).accepting == old(self).accepting,
            final(self).failed == old(self).failed,
    {
        self.queued = self.queued - 1;
        self.running = self.running + 1;
    }

    /// A job body ends, normally (`ok`) or by panicking (`!ok`): the
    /// job stops being pending, and the worker that ran it returns to
    /// waiting on the queue.
    pub fn finish_next(&mut self, ok: bool)
        requires
            old(self).wf(),
            old(self).running > 0,
        ensures
            final(self).wf(),
            final(self).running == old(self).running - 1,
            final(self).finished == old(self).finished + 1,
            final(self).failed == (old(self).failed || !ok),
            final(self).submitted == old(self).submitted,
            final(self).queued == old(self).queued,
            final(self).workers == old(self).workers,
            final(self).accepting == old(self).accepting,
    {
        self.running = self.running - 1;
        self.inner.finish_job();
        self.finished = self.finished + 1;
        if !ok {
            self.failed = true;
        }
    }

    /// The submission channel is closed: no further job will be accepted.
    pub fn close(&mut self)
        requires
            old(self).wf(),
        ensures
            final(self).wf(),
            !final(self).accepting,
            final(self).submitted == old(self).submitted,
            final(self).queued == old(self).queued,
            final(self).running == old(self).running,
            final(self).finished == old(self).finished,
            final(self).workers == old(self).workers,
            final(self).failed == old(self).failed,
    {
        self.accepting = false;
    }

    /// An idle worker observes the closed, drained queue and terminates.
    pub fn worker_exit(&mut self)
        requires
            old(self).wf(),
            !old(self).accepting,
            old(self).queued == 0,
            old(self).workers > 0,
            old(self).running < old(self).workers,
        ensures
            final(self).wf(),
            final(self).workers == old(self).workers - 1,
            final(self).submitted == old(self).submitted,
            final(self).queued == old(self).queued,
            final(self).running == old(self).running,
            final(self).finished == old(self).finished,
            final(self).accepting == old(self).accepting,
            final(self).failed == old(self).failed,
    {
        self.workers = self.workers - 1;
    }

    /// Tear the pool down once it is closed and drained: every remaining
    /// worker observes the end of the queue and is joined, so no worker
    /// thread outlives the pool. If any job body panicked, the teardown
    /// itself fails loudly instead of swallowing the crash.
    pub fn join_workers(&mut self) -> (r: Result<(), PoolError>)
        requires
            old(self).wf(),
            !old(self).accepting,
            old(self).inner.count() == 0,
        ensures
            final(self).wf(),
            final(self).workers == 0,
            r is Err <==> final(self).failed,
            r matches Err(e) ==> e == PoolError::WorkerPanicked,
            final(self).submitted == old(self).submitted,
            final(self).queued == old(self).queued,
            final(self).running == old(self).running,
            final(self).finished == old(self).finished,
            final(self).accepting == old(self).accepting,
            final(self).failed == old(self).failed,
    {
        while self.workers > 0
            invariant
                self.wf(),
                !self.accepting,
                self.queued == 0,
                self.running == 0,
                self.submitted == old(self).submitted,
                self.finished == old(self).finished,
                self.failed == old(self).failed,
            decreases self.workers,
        {
            self.worker_exit();
        }
        if self.failed {
            Err(PoolError::WorkerPanicked)
        } else {
            Ok(())
        }
    }
}

/// Drain correctness: the zero counter that a finished drain observes
/// means that nothing is queued, nothing is running, and every job ever
/// submitted has finished executing.
pub proof fn lemma_drain_correctness(p: PoolModel)
    requires
        p.wf(),
        p.inner.count() == 0,
    ensures
        p.queued == 0,
        p.running == 0,
        p.finished == p.submitted,
{
}

/// The counter invariant: in a well-formed pool the shared job counter
/// is zero exactly when no job is queued or executing.
pub proof fn lemma_counter_zero_iff_idle(p: PoolModel)
    requires
        p.wf(),
    ensures
        (p.inner.count() == 0) <==> (p.queued == 0 && p.running == 0),
{
}

} // verus!
