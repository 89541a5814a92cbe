use crate::challenge::{Challenge, ChallengeResponse};
use crate::partition::{in_share, Partition, MAX_STRIDE};
use ironshield_core::{
    find_solution_multi_threaded,
    find_solution_single_threaded,
    verify_ironshield_solution,
    IronShieldChallenge,
    IronShieldChallengeResponse,
};
use vstd::prelude::*;

verus! {

/// What the external solver returns for the share `offset`, `offset + stride`, ...
/// of a challenge with this random nonce and target: the nonce it finds, or
/// the text of its error (an undecodable random nonce, or no nonce within its
/// attempt limit).
pub uninterp spec fn share_search(
    random_nonce: Seq<char>,
    challenge_param: Seq<u8>,
    offset: usize,
    stride: usize,
) -> Result<i64, Seq<char>>;

/// What the external solver returns searching from zero in steps of one:
/// the nonce it finds, or the text of its error.
pub uninterp spec fn whole_search(random_nonce: Seq<char>, challenge_param: Seq<u8>) -> Result<i64, Seq<char>>;

/// A solver result with its error text as a sequence of characters.
pub open spec fn search_view(r: Result<i64, String>) -> Result<i64, Seq<char>> {
    match r {
        Ok(n) => Ok(n),
        Err(e) => Err(e@),
    }
}

/// Whether the external verification predicate accepts `nonce` for a
/// challenge with this random nonce and target.
pub uninterp spec fn meets_target(random_nonce: Seq<char>, challenge_param: Seq<u8>, nonce: i64) -> bool;

/// Relies on ironshield_core::find_solution_multi_threaded with its default
/// configuration: it tries `offset`, `offset + stride`, ... in turn, hands
/// `progress` the size of each batch of attempts, and returns the first nonce
/// that meets the target, the same test the verification predicate makes.
/// What it returns depends on the random nonce, the target and the partition
/// alone. A zero stride would never advance, and a stride above `MAX_STRIDE`
/// could overflow its signed nonce.
#[verifier::external_body]
fn search_share<F: Fn(u64)>(c: &Challenge, offset: usize, stride: usize, progress: &F) -> (r: Result<
    i64,
    String,
>)
    requires
        1 <= stride <= MAX_STRIDE,
        offset < stride,
        forall|b: u64| progress.requires((b,)),
    ensures
        search_view(r) == share_search(c.random_nonce@, c.challenge_param@, offset, stride),
        r is Ok ==> in_share(offset as int, stride as int, r->Ok_0 as int),
        r is Ok ==> meets_target(c.random_nonce@, c.challenge_param@, r->Ok_0),
{
    let challenge = IronShieldChallenge {
        random_nonce: c.random_nonce.clone(),
        created_time: c.created_time,
        expiration_time: c.expiration_time,
        website_id: c.website_id.clone(),
        challenge_param: c.challenge_param,
        recommended_attempts: c.recommended_attempts,
        public_key: c.public_key,
        challenge_signature: c.challenge_signature,
    };
    let callback: &dyn Fn(u64) = progress;
    find_solution_multi_threaded(&challenge, None, Some(offset), Some(stride), Some(callback)).map(|r| r.solution)
}

/// Relies on ironshield_core::find_solution_single_threaded with its default
/// configuration: it tries the nonces from zero upwards and returns the first
/// that meets the target, the same test the verification predicate makes.
/// What it returns depends on the random nonce and the target alone.
#[verifier::external_body]
fn search_whole(c: &Challenge) -> (r: Result<i64, String>)
    ensures
        search_view(r) == whole_search(c.random_nonce@, c.challenge_param@),
        r is Ok ==> r->Ok_0 >= 0,
        r is Ok ==> meets_target(c.random_nonce@, c.challenge_param@, r->Ok_0),
{
    let challenge = IronShieldChallenge {
        random_nonce: c.random_nonce.clone(),
        created_time: c.created_time,
        expiration_time: c.expiration_time,
        website_id: c.website_id.clone(),
        challenge_param: c.challenge_param,
        recommended_attempts: c.recommended_attempts,
        public_key: c.public_key,
        challenge_signature: c.challenge_signature,
    };
    find_solution_single_threaded(&challenge, None).map(|r| r.solution)
}

/// Relies on ironshield_core::verify_ironshield_solution: its answer depends
/// on the challenge's random nonce and target and on the proposed nonce alone.
#[verifier::external_body]
pub(crate) fn verify_response(r: &ChallengeResponse) -> (b: bool)
    ensures
        b == meets_target(r.solved_challenge.random_nonce@, r.solved_challenge.challenge_param@, r.solution),
{
    let c = &r.solved_challenge;
    let challenge = IronShieldChallenge {
        random_nonce: c.random_nonce.clone(),
        created_time: c.created_time,
        expiration_time: c.expiration_time,
        website_id: c.website_id.clone(),
        challenge_param: c.challenge_param,
        recommended_attempts: c.recommended_attempts,
        public_key: c.public_key,
        challenge_signature: c.challenge_signature,
    };
    verify_ironshield_solution(&IronShieldChallengeResponse::new(challenge, r.solution))
}

/// What one worker ends with.
#[derive(Debug, Clone)]
pub enum WorkerOutcome {
    /// The worker found a nonce; the response carries it with its challenge.
    Solution(ChallengeResponse),
    /// The worker's search ended without a nonce.
    Failure(String),
}

/// Whether `r` is the response that pairs `c` with nonce `n`.
pub open spec fn answers(r: ChallengeResponse, c: Challenge, n: i64) -> bool {
    r.solved_challenge@ == c@ && r.solution == n
}

/// Whether worker outcome `r` is what a solver result `s` on `c` comes to:
/// a solution pairing `c` with the nonce found, or a failure with the
/// solver's error text.
pub open spec fn outcome_of(r: WorkerOutcome, c: Challenge, s: Result<i64, Seq<char>>) -> bool {
    match s {
        Ok(n) => r matches WorkerOutcome::Solution(resp) && answers(resp, c, n),
        Err(e) => r matches WorkerOutcome::Failure(reason) && reason@ == e,
    }
}

/// Searches one partition of the nonce space of `challenge`, handing
/// `progress` the size of each batch of attempts made. A partition the solver
/// cannot search ends in `Failure` without a search. `progress` must accept
/// every batch size. A solution's nonce lies
/// in the partition and passes the verification predicate.
pub fn run_worker<F: Fn(u64)>(challenge: &Challenge, part: Partition, progress: &F) -> (r: WorkerOutcome)
    requires
        forall|b: u64| progress.requires((b,)),
    ensures
        !part.searchable() ==> r is Failure,
        part.searchable() ==> outcome_of(
            r,
            *challenge,
            share_search(challenge.random_nonce@, challenge.challenge_param@, part.offset, part.stride),
        ),
        r matches WorkerOutcome::Solution(resp) ==> part.contains(resp.solution as int) && meets_target(
            challenge.random_nonce@,
            challenge.challenge_param@,
            resp.solution,
        ),
{
    if !part.is_searchable() {
        return WorkerOutcome::Failure("the partition cannot be searched".to_string());
    }
    match search_share(challenge, part.offset, part.stride, progress) {
        Ok(nonce) => WorkerOutcome::Solution(
            ChallengeResponse { solved_challenge: challenge.duplicate(), solution: nonce },
        ),
        Err(reason) => WorkerOutcome::Failure(reason),
    }
}

/// Searches the whole nonce space of `challenge` from zero in steps of one.
/// A solution's nonce is non-negative and passes the verification predicate;
/// a failure carries the solver's error text.
pub fn run_unpartitioned(challenge: &Challenge) -> (r: WorkerOutcome)
    ensures
        outcome_of(r, *challenge, whole_search(challenge.random_nonce@, challenge.challenge_param@)),
        r matches WorkerOutcome::Solution(resp) ==> resp.solution >= 0 && meets_target(
            challenge.random_nonce@,
            challenge.challenge_param@,
            resp.solution,
        ),
{
    match search_whole(challenge) {
        Ok(nonce) => WorkerOutcome::Solution(
            ChallengeResponse { solved_challenge: challenge.duplicate(), solution: nonce },
        ),
        Err(reason) => WorkerOutcome::Failure(reason),
    }
}

} // verus!
