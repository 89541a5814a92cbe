use crate::challenge::{Challenge, ChallengeResponse};
use crate::config::ClientConfig;
use crate::partition::{round_robin, Partition};
use crate::policy::{policy_thread_count, SolveConfig};
use crate::telemetry::{estimate_effort, estimated_attempts, hash_rate, Telemetry};
use crate::worker::{meets_target, verify_response};
use vstd::prelude::*;

verus! {

/// Why a solve attempt failed. A single worker's failure is not among them:
/// the race absorbs it and goes on with the other workers.
#[derive(Debug, Clone, PartialEq, Eq)]
pub enum SolveError {
    /// The challenge's deadline had passed before any worker started.
    ChallengeExpired,
    /// Every worker ended without a solution; the reason the last one gave
    /// (the solver's error, or why its task could not be joined).
    NoSolutionFound { last_failure: String },
    /// The winning solution did not pass the verification predicate.
    VerificationFailed,
}

/// How the nonce space is searched.
#[derive(Debug)]
pub enum SolvePlan {
    /// One worker searches the whole space from zero.
    Single,
    /// One worker per partition, raced against each other.
    Race(Vec<Partition>),
}

/// Whether `plan` is the search that `config` asks for: several workers over
/// round-robin partitions when it races workers, one unpartitioned worker otherwise.
pub open spec fn plan_follows(plan: SolvePlan, config: SolveConfig) -> bool {
    if config.use_multithreaded && config.thread_count > 1 {
        plan matches SolvePlan::Race(parts) && parts.len() == config.thread_count && forall|i: int|
            0 <= i < parts.len() ==> #[trigger] parts[i] == (Partition {
                offset: i as usize,
                stride: config.thread_count,
            })
    } else {
        plan is Single
    }
}

/// Fails with `ChallengeExpired` exactly when `now` is past the challenge's deadline.
pub fn check_expiry(now: i64, challenge: &Challenge) -> (r: Result<(), SolveError>)
    ensures
        r is Err <==> now > challenge.expiration_time,
        r is Err ==> r->Err_0 == SolveError::ChallengeExpired,
{
    if challenge.is_expired_at(now) {
        Err(SolveError::ChallengeExpired)
    } else {
        Ok(())
    }
}

/// Decides, at time `now`, how `challenge` is to be searched under `config`.
/// An expired challenge gets no plan, so no worker is ever started for it.
pub fn plan_solve(now: i64, challenge: &Challenge, config: SolveConfig) -> (r: Result<SolvePlan, SolveError>)
    ensures
        r is Err <==> now > challenge.expiration_time,
        r is Err ==> r->Err_0 == SolveError::ChallengeExpired,
        r is Ok ==> plan_follows(r->Ok_0, config),
{
    check_expiry(now, challenge)?;
    if config.races_workers() {
        Ok(SolvePlan::Race(round_robin(config.thread_count)))
    } else {
        Ok(SolvePlan::Single)
    }
}

/// Relies on chrono's Utc::now and DateTime::timestamp_millis: the current
/// time in milliseconds since the epoch.
#[verifier::external_body]
fn now_millis() -> (r: i64) {
    ironshield_types::chrono::Utc::now().timestamp_millis()
}

/// Starts a solve of `challenge`: derives the worker count from `config`,
/// the multithreading flag and this machine's parallelism, checks the
/// deadline against the clock and plans the search.
pub fn start_solve(challenge: &Challenge, config: &ClientConfig, use_multithreaded: bool) -> (r: Result<
    (SolveConfig, SolvePlan),
    SolveError,
>)
    ensures
        r is Err ==> r->Err_0 == SolveError::ChallengeExpired,
        r matches Ok((cfg, plan)) ==> {
            &&& cfg.wf()
            &&& cfg.use_multithreaded == use_multithreaded
            &&& !use_multithreaded ==> cfg.thread_count == 1
            &&& use_multithreaded && config.num_threads is Some && config.num_threads->Some_0 >= 1
                ==> cfg.thread_count == config.num_threads->Some_0
            &&& exists|a: int| a >= 1 && cfg.thread_count as int == policy_thread_count(
                config.num_threads,
                use_multithreaded,
                a,
            )
            &&& plan_follows(plan, cfg)
        },
{
    let cfg = SolveConfig::new(config, use_multithreaded);
    let now = now_millis();
    let plan = plan_solve(now, challenge, cfg)?;
    Ok((cfg, plan))
}

/// A solved challenge with the estimate of the effort it took, when one can
/// be made: for a non-negative nonce and a positive stride.
#[derive(Debug)]
pub struct SolveReport {
    pub response: ChallengeResponse,
    pub telemetry: Option<Telemetry>,
}

/// Whether `report` carries `solution` unchanged, with the effort estimated
/// for stride `stride` and `elapsed_ms` milliseconds where it can be.
pub open spec fn reports(report: SolveReport, solution: ChallengeResponse, stride: usize, elapsed_ms: u64) -> bool {
    &&& report.response.solved_challenge@ == solution.solved_challenge@
    &&& report.response.solution == solution.solution
    &&& (report.telemetry is Some <==> solution.solution >= 0 && stride >= 1)
    &&& report.telemetry matches Some(t) ==> {
        &&& t.estimated_total_attempts == estimated_attempts(solution.solution as int, stride as int)
        &&& t.hash_rate == hash_rate(
            estimated_attempts(solution.solution as int, stride as int),
            elapsed_ms as int,
        )
    }
}

/// Concludes a solve from the winning `solution` and the verification
/// predicate's answer `valid` on it. A rejected solution is a fatal
/// `VerificationFailed`, never a success, and is not searched for again; an
/// accepted one is returned with the effort estimated for stride `stride` and
/// `elapsed_ms` milliseconds.
pub fn accept_verified(solution: ChallengeResponse, valid: bool, stride: usize, elapsed_ms: u64) -> (r: Result<
    SolveReport,
    SolveError,
>)
    ensures
        r is Ok <==> valid,
        r is Err ==> r->Err_0 == SolveError::VerificationFailed,
        r matches Ok(report) ==> reports(report, solution, stride, elapsed_ms),
{
    if !valid {
        return Err(SolveError::VerificationFailed);
    }
    let telemetry = if solution.solution >= 0 && stride >= 1 {
        Some(estimate_effort(solution.solution as u64, stride as u64, elapsed_ms))
    } else {
        None
    };
    Ok(SolveReport { response: solution, telemetry })
}

/// Verifies the winning `solution` with the external predicate and concludes
/// the solve as `accept_verified` does with its answer.
pub fn conclude(solution: ChallengeResponse, stride: usize, elapsed_ms: u64) -> (r: Result<
    SolveReport,
    SolveError,
>)
    ensures
        r is Ok <==> meets_target(
            solution.solved_challenge.random_nonce@,
            solution.solved_challenge.challenge_param@,
            solution.solution,
        ),
        r is Err ==> r->Err_0 == SolveError::VerificationFailed,
        r matches Ok(report) ==> reports(report, solution, stride, elapsed_ms),
{
    let valid = verify_response(&solution);
    accept_verified(solution, valid, stride, elapsed_ms)
}

} // verus!
