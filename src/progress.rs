use std::collections::HashMap;
use vstd::prelude::*;

verus! {

broadcast use vstd::std_specs::hash::group_hash_axioms;

/// A worker's progress is reported at most once per this many attempts.
pub const LOG_INTERVAL: u64 = 500_000;

/// The throttling state of a tracker: for each worker, the attempt count at
/// which it was last reported, and the number of workers in the race.
pub struct ProgressLog {
    pub last_logged: Map<usize, u64>,
    pub thread_count: usize,
}

/// The attempt count at which `thread_id` was last reported, zero if never.
pub open spec fn last_reported(log: Map<usize, u64>, thread_id: usize) -> int {
    if log.contains_key(thread_id) {
        log[thread_id] as int
    } else {
        0
    }
}

/// `a * b`, or `u128::MAX` where the product does not fit.
pub open spec fn saturating_product(a: int, b: int) -> int {
    if a * b > u128::MAX {
        u128::MAX as int
    } else {
        a * b
    }
}

/// An estimate of the whole race's progress, extrapolated from one worker.
#[derive(Debug, Clone, Copy, PartialEq, Eq, Structural)]
pub struct ProgressSummary {
    /// The worker's attempts times the number of workers.
    pub estimated_total_attempts: u128,
    /// The worker's hash rate times the number of workers.
    pub estimated_total_hash_rate: u128,
}

/// Throttles per-worker progress reports: a worker's report passes only once
/// it has made `LOG_INTERVAL` attempts since its last report that passed.
pub struct VerboseProgressTracker {
    last_logged: HashMap<usize, u64>,
    thread_count: usize,
}

impl View for VerboseProgressTracker {
    type V = ProgressLog;

    closed spec fn view(&self) -> ProgressLog {
        ProgressLog { last_logged: self.last_logged@, thread_count: self.thread_count }
    }
}

impl VerboseProgressTracker {
    /// A tracker for a race of `thread_count` workers that has reported nothing yet.
    pub fn new(thread_count: usize) -> (r: Self)
        ensures
            r@.last_logged == Map::<usize, u64>::empty(),
            r@.thread_count == thread_count,
    {
        VerboseProgressTracker { last_logged: HashMap::new(), thread_count }
    }

    /// Offers a report that worker `thread_id` has made `total_attempts`
    /// attempts at `hash_rate` hashes per second. Returns the extrapolated
    /// totals when the report passes the throttle, and remembers it.
    pub fn record(&mut self, thread_id: usize, total_attempts: u64, hash_rate: u128) -> (r: Option<
        ProgressSummary,
    >)
        ensures
            final(self)@.thread_count == old(self)@.thread_count,
            r is Some <==> total_attempts >= last_reported(old(self)@.last_logged, thread_id)
                + LOG_INTERVAL,
            r is Some ==> final(self)@.last_logged == old(self)@.last_logged.insert(
                thread_id,
                total_attempts,
            ),
            r is Some ==> r->Some_0.estimated_total_attempts == total_attempts as int
                * old(self)@.thread_count as int,
            r is Some ==> r->Some_0.estimated_total_hash_rate == saturating_product(
                hash_rate as int,
                old(self)@.thread_count as int,
            ),
            r is None ==> final(self)@ == old(self)@,
    {
        let last: u64 = match self.last_logged.get(&thread_id) {
            Some(v) => *v,
            None => 0,
        };
        if total_attempts >= last && total_attempts - last >= LOG_INTERVAL {
            let workers = self.thread_count as u128;
            let attempts = total_attempts as u128;
            assert(attempts * workers <= u64::MAX as int * u64::MAX as int) by (nonlinear_arith)
                requires
                    attempts <= u64::MAX,
                    workers <= u64::MAX,
            ;
            let estimated_total_attempts = attempts * workers;
            let estimated_total_hash_rate = if workers == 0 {
                0
            } else if hash_rate > u128::MAX / workers {
                assert(hash_rate * workers > u128::MAX) by (nonlinear_arith)
                    requires
                        hash_rate > u128::MAX / workers,
                        workers > 0,
                ;
                u128::MAX
            } else {
                assert(hash_rate * workers <= u128::MAX) by (nonlinear_arith)
                    requires
                        hash_rate <= u128::MAX / workers,
                        workers > 0,
                ;
                hash_rate * workers
            };
            self.last_logged.insert(thread_id, total_attempts);
            Some(ProgressSummary { estimated_total_attempts, estimated_total_hash_rate })
        } else {
            None
        }
    }
}

} // verus!

verus! {

/// A worker's own progress after a batch of attempts.
#[derive(Debug, Clone, Copy, PartialEq, Eq, Structural)]
pub struct WorkerProgress {
    /// Attempts this worker has made so far.
    pub total_attempts: u64,
    /// This worker's attempts per second so far.
    pub hash_rate: u128,
}

/// Accounts for one batch of `batch` attempts, reported by the solver to a
/// worker that had made `attempts_before` attempts and has run for
/// `elapsed_ms` milliseconds. Once the race's found flag is set nothing is
/// reported any more. The counter saturates at `u64::MAX`.
pub fn progress_after_batch(found: bool, attempts_before: u64, batch: u64, elapsed_ms: u64) -> (r: Option<
    WorkerProgress,
>)
    ensures
        found <==> r is None,
        r is Some ==> r->Some_0.total_attempts == (if attempts_before + batch > u64::MAX {
            u64::MAX as int
        } else {
            attempts_before + batch
        }),
        r is Some ==> r->Some_0.hash_rate == crate::telemetry::hash_rate(
            r->Some_0.total_attempts as int,
            elapsed_ms as int,
        ),
{
    if found {
        return None;
    }
    let total_attempts = attempts_before.saturating_add(batch);
    let hash_rate = crate::telemetry::rate_of(total_attempts as u128, elapsed_ms);
    Some(WorkerProgress { total_attempts, hash_rate })
}

} // verus!
