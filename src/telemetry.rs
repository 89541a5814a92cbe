use vstd::prelude::*;

verus! {

/// Estimated attempts across all workers when the winning nonce is `n` and
/// the stride is `s`: the winner made about `n / s + 1` attempts in its own
/// partition, and every worker is assumed to have done as many.
pub open spec fn estimated_attempts(n: int, s: int) -> int {
    (n / s + 1) * s
}

/// Attempts per second for `attempts` made in `elapsed_ms` milliseconds; a
/// run that took under a millisecond counts as one millisecond long.
pub open spec fn hash_rate(attempts: int, elapsed_ms: int) -> int {
    if elapsed_ms > 0 {
        attempts * 1000 / elapsed_ms
    } else {
        attempts
    }
}

/// An approximation of the effort a solve took. Other workers' progress is
/// not observed, so these are estimates, not measurements.
#[derive(Debug, Clone, Copy, PartialEq, Eq, Structural)]
pub struct Telemetry {
    pub estimated_total_attempts: u128,
    pub hash_rate: u128,
}

/// `attempts * 1000 / elapsed_ms`, or `attempts` when no time elapsed.
pub(crate) fn rate_of(attempts: u128, elapsed_ms: u64) -> (r: u128)
    requires
        attempts <= u128::MAX / 1000,
    ensures
        r == hash_rate(attempts as int, elapsed_ms as int),
{
    if elapsed_ms > 0 {
        attempts * 1000 / (elapsed_ms as u128)
    } else {
        attempts
    }
}

/// Estimates the total attempts and the hash rate of a solve whose winning
/// nonce is `nonce`, found with stride `stride` after `elapsed_ms` milliseconds.
pub fn estimate_effort(nonce: u64, stride: u64, elapsed_ms: u64) -> (r: Telemetry)
    requires
        stride >= 1,
    ensures
        r.estimated_total_attempts == estimated_attempts(nonce as int, stride as int),
        r.hash_rate == hash_rate(estimated_attempts(nonce as int, stride as int), elapsed_ms as int),
{
    let n = nonce as u128;
    let s = stride as u128;
    let per_worker = n / s + 1;
    proof {
        vstd::arithmetic::div_mod::lemma_fundamental_div_mod(n as int, s as int);
        vstd::arithmetic::div_mod::lemma_mod_bound(n as int, s as int);
        assert(per_worker * s == (n / s) * s + s) by (nonlinear_arith)
            requires
                per_worker == n / s + 1,
        ;
        assert((n / s) * s <= n) by (nonlinear_arith)
            requires
                n == s * (n / s) + n % s,
                n % s >= 0,
        ;
    }
    let total = per_worker * s;
    Telemetry { estimated_total_attempts: total, hash_rate: rate_of(total, elapsed_ms) }
}

} // verus!
