use ironshield_client::partition::round_robin;
use ironshield_client::{
    accept_verified, check_expiry, conclude, estimate_effort, plan_solve, run_unpartitioned, run_worker,
    start_solve, Challenge, ChallengeResponse, ClientConfig, Partition, RaceState, RaceStep, SolveConfig,
    SolveError, SolvePlan, WorkerOutcome,
};
use std::cell::Cell;
use std::time::Duration;

fn challenge_with(random_nonce: &str, param: [u8; 32], expiration_time: i64) -> Challenge {
    Challenge {
        random_nonce: random_nonce.to_string(),
        created_time: 0,
        expiration_time,
        website_id: "https://example.com/protected".to_string(),
        challenge_param: param,
        recommended_attempts: 2000,
        public_key: [7u8; 32],
        challenge_signature: [9u8; 64],
    }
}

fn response_with(nonce: i64) -> ChallengeResponse {
    ChallengeResponse { solved_challenge: challenge_with("00", [0xFF; 32], 1_000), solution: nonce }
}

fn config_with(num_threads: Option<usize>) -> ClientConfig {
    ClientConfig {
        endpoint: "https://test.com".to_string(),
        api_base_url: "https://api.test.com".to_string(),
        timeout: Duration::from_secs(30),
        verbose: false,
        num_threads,
    }
}

#[test]
fn single_threaded_policy_ignores_override_and_parallelism() {
    for configured in [None, Some(1), Some(7), Some(64)] {
        for available in [1usize, 2, 16, 128] {
            let c = SolveConfig::from_parallelism(configured, false, available);
            assert_eq!(c.thread_count, 1);
            assert!(!c.use_multithreaded);
        }
    }
}

#[test]
fn multithreaded_policy_takes_override_exactly() {
    for k in [1usize, 2, 3, 17, 1000] {
        let c = SolveConfig::from_parallelism(Some(k), true, 8);
        assert_eq!(c.thread_count, k);
    }
}

#[test]
fn multithreaded_policy_uses_four_fifths_of_parallelism() {
    assert_eq!(SolveConfig::from_parallelism(None, true, 10).thread_count, 8);
    assert_eq!(SolveConfig::from_parallelism(None, true, 16).thread_count, 12);
    assert_eq!(SolveConfig::from_parallelism(None, true, 5).thread_count, 4);
    assert_eq!(SolveConfig::from_parallelism(None, true, 2).thread_count, 1);
    assert_eq!(SolveConfig::from_parallelism(None, true, 1).thread_count, 1);
    assert_eq!(SolveConfig::from_parallelism(Some(0), true, 10).thread_count, 8);
}

#[test]
fn round_robin_partitions_cover_each_nonce_once() {
    let stride = 4usize;
    let parts = round_robin(stride);
    assert_eq!(parts.len(), 4);
    for (i, p) in parts.iter().enumerate() {
        assert_eq!(p.offset, i);
        assert_eq!(p.stride, stride);
    }
    for n in 0..1000usize {
        let owners = parts.iter().filter(|p| n >= p.offset && (n - p.offset) % p.stride == 0).count();
        assert_eq!(owners, 1);
    }
}

#[test]
fn race_returns_solution_of_shortest_delay() {
    let delays = [30u64, 10, 20, 40];
    let mut order: Vec<usize> = (0..delays.len()).collect();
    order.sort_by_key(|&i| delays[i]);
    let mut race = RaceState::new(delays.len());
    let mut accepted = None;
    for &w in &order {
        let step = race.record(w, WorkerOutcome::Solution(response_with(100 + w as i64)));
        if let RaceStep::Accepted { solution, cancel } = step {
            assert!(accepted.is_none());
            assert_eq!(cancel, vec![0, 2, 3]);
            accepted = Some(solution.solution);
        } else {
            assert!(matches!(step, RaceStep::Ignored));
        }
    }
    assert_eq!(accepted, Some(101));
    assert_eq!(race.winner(), Some(1));
    assert!(race.is_found());
    assert!(!race.any_running());
}

#[test]
fn race_of_failures_is_exhausted() {
    let mut race = RaceState::new(3);
    assert!(matches!(race.record(2, WorkerOutcome::Failure("gave up".to_string())), RaceStep::Continue));
    assert!(matches!(race.record(0, WorkerOutcome::Failure("gave up".to_string())), RaceStep::Continue));
    assert!(matches!(race.record(0, WorkerOutcome::Failure("again".to_string())), RaceStep::Ignored));
    match race.record(1, WorkerOutcome::Failure("last one gave up".to_string())) {
        RaceStep::Exhausted { reason } => assert_eq!(reason, "last one gave up"),
        _ => panic!("the race was not exhausted"),
    }
    assert!(!race.is_found());
    assert_eq!(race.winner(), None);
}

#[test]
fn race_survives_a_failure_before_the_solution() {
    let mut race = RaceState::new(3);
    assert!(matches!(race.record(1, WorkerOutcome::Failure("gave up".to_string())), RaceStep::Continue));
    match race.record(2, WorkerOutcome::Solution(response_with(5))) {
        RaceStep::Accepted { solution, cancel } => {
            assert_eq!(solution.solution, 5);
            assert_eq!(cancel, vec![0]);
        },
        _ => panic!("the solution was not accepted"),
    }
    assert!(matches!(race.record(0, WorkerOutcome::Solution(response_with(8))), RaceStep::Ignored));
    assert_eq!(race.winner(), Some(2));
}

#[test]
fn expired_challenge_gets_no_plan() {
    let challenge = challenge_with("00", [0xFF; 32], 1_000);
    let cfg = SolveConfig::from_parallelism(Some(4), true, 8);
    assert!(matches!(plan_solve(1_001, &challenge, cfg), Err(SolveError::ChallengeExpired)));
    assert!(matches!(plan_solve(1_000, &challenge, cfg), Ok(SolvePlan::Race(_))));
    assert_eq!(check_expiry(1_001, &challenge), Err(SolveError::ChallengeExpired));
    assert_eq!(check_expiry(999, &challenge), Ok(()));
}

#[test]
fn start_solve_rejects_challenge_expired_by_the_clock() {
    let challenge = challenge_with("00", [0xFF; 32], 1_000);
    let r = start_solve(&challenge, &config_with(Some(4)), true);
    assert!(matches!(r, Err(SolveError::ChallengeExpired)));
}

#[test]
fn start_solve_plans_a_live_challenge() {
    let challenge = challenge_with("00", [0xFF; 32], i64::MAX);
    match start_solve(&challenge, &config_with(Some(3)), true) {
        Ok((cfg, SolvePlan::Race(parts))) => {
            assert_eq!(cfg.thread_count, 3);
            assert_eq!(parts, vec![
                Partition { offset: 0, stride: 3 },
                Partition { offset: 1, stride: 3 },
                Partition { offset: 2, stride: 3 },
            ]);
        },
        _ => panic!("expected a race of three workers"),
    }
    match start_solve(&challenge, &config_with(Some(3)), false) {
        Ok((cfg, SolvePlan::Single)) => assert_eq!(cfg.thread_count, 1),
        _ => panic!("expected a single worker"),
    }
}

#[test]
fn rejected_solution_is_verification_failure() {
    let r = accept_verified(response_with(42), false, 4, 10);
    assert!(matches!(r, Err(SolveError::VerificationFailed)));
    let r = accept_verified(response_with(-3), false, 0, 10);
    assert!(matches!(r, Err(SolveError::VerificationFailed)));
    let ok = accept_verified(response_with(42), true, 4, 10).unwrap();
    assert_eq!(ok.response.solution, 42);
    let t = ok.telemetry.unwrap();
    assert_eq!(t.estimated_total_attempts, 44);
    assert_eq!(t.hash_rate, 4400);
    let negative = accept_verified(response_with(-3), true, 4, 10).unwrap();
    assert_eq!(negative.response.solution, -3);
    assert!(negative.telemetry.is_none());
    assert!(accept_verified(response_with(42), true, 0, 10).unwrap().telemetry.is_none());
}

#[test]
fn telemetry_of_nonce_thousand_with_stride_four() {
    let t = estimate_effort(1000, 4, 1000);
    assert_eq!(t.estimated_total_attempts, 1004);
    assert_eq!(t.hash_rate, 1004);
    let instant = estimate_effort(1000, 4, 0);
    assert_eq!(instant.hash_rate, 1004);
    let single = estimate_effort(0, 1, 500);
    assert_eq!(single.estimated_total_attempts, 1);
    assert_eq!(single.hash_rate, 2);
    let largest = estimate_effort(u64::MAX, 1, 1);
    assert_eq!(largest.estimated_total_attempts, u64::MAX as u128 + 1);
    assert_eq!(largest.hash_rate, (u64::MAX as u128 + 1) * 1000);
}

#[test]
fn scenario_worker_two_wins_a_race_of_four() {
    let now: i64 = 1_700_000_000_000;
    let challenge = challenge_with("00", [0xFF; 32], now + 60_000);
    let cfg = SolveConfig::from_parallelism(Some(4), true, 8);
    let parts = match plan_solve(now, &challenge, cfg) {
        Ok(SolvePlan::Race(parts)) => parts,
        _ => panic!("expected a race"),
    };
    assert_eq!(parts.len(), 4);
    assert_eq!(parts[2], Partition { offset: 2, stride: 4 });

    let mut race = RaceState::new(parts.len());
    let winner = ChallengeResponse { solved_challenge: challenge.clone(), solution: 402 };
    let (solution, cancel) = match race.record(2, WorkerOutcome::Solution(winner)) {
        RaceStep::Accepted { solution, cancel } => (solution, cancel),
        _ => panic!("the solution was not accepted"),
    };
    assert_eq!(cancel, vec![0, 1, 3]);

    let calls = Cell::new(0u32);
    let verifier = |r: &ChallengeResponse| {
        calls.set(calls.get() + 1);
        r.solution == 402
    };
    let valid = verifier(&solution);
    let report = accept_verified(solution, valid, cfg.thread_count, 50).unwrap();
    assert_eq!(calls.get(), 1);
    assert_eq!(report.response.solution, 402);
    assert_eq!(report.telemetry.unwrap().estimated_total_attempts, 404);
}

#[test]
fn worker_finds_nonce_in_its_partition() {
    let challenge = challenge_with("00", [0xFF; 32], i64::MAX);
    let batches = Cell::new(0u64);
    let progress = |b: u64| batches.set(batches.get() + b);
    match run_worker(&challenge, Partition { offset: 1, stride: 4 }, &progress) {
        WorkerOutcome::Solution(r) => {
            assert!(r.solution >= 1);
            assert_eq!((r.solution - 1) % 4, 0);
            assert_eq!(r.solved_challenge.random_nonce, "00");
            let report = conclude(r, 4, 1).unwrap();
            assert_eq!(report.response.solution % 4, 1);
        },
        WorkerOutcome::Failure(e) => panic!("no solution: {e}"),
    }
}

#[test]
fn worker_fails_on_undecodable_random_nonce() {
    let challenge = challenge_with("not hex", [0xFF; 32], i64::MAX);
    let progress = |_: u64| {};
    match run_worker(&challenge, Partition { offset: 0, stride: 2 }, &progress) {
        WorkerOutcome::Failure(reason) => assert!(reason.starts_with("Failed to decode random_nonce hex")),
        WorkerOutcome::Solution(_) => panic!("an undecodable challenge was solved"),
    }
    match run_unpartitioned(&challenge) {
        WorkerOutcome::Failure(reason) => assert!(reason.starts_with("Failed to decode random_nonce hex")),
        WorkerOutcome::Solution(_) => panic!("an undecodable challenge was solved"),
    }
}

#[test]
fn worker_refuses_unsearchable_partition() {
    let challenge = challenge_with("00", [0xFF; 32], i64::MAX);
    let progress = |_: u64| {};
    assert!(matches!(run_worker(&challenge, Partition { offset: 0, stride: 0 }, &progress), WorkerOutcome::Failure(_)));
    assert!(matches!(run_worker(&challenge, Partition { offset: 3, stride: 3 }, &progress), WorkerOutcome::Failure(_)));
}

#[test]
fn unpartitioned_worker_solves_from_zero() {
    let challenge = challenge_with("abcd", [0xFF; 32], i64::MAX);
    match run_unpartitioned(&challenge) {
        WorkerOutcome::Solution(r) => {
            assert!(r.solution >= 0);
            assert_eq!(r.solved_challenge.website_id, challenge.website_id);
            assert!(conclude(r, 1, 0).is_ok());
        },
        WorkerOutcome::Failure(e) => panic!("no solution: {e}"),
    }
}

#[test]
fn real_verifier_rejects_a_nonce_above_the_target() {
    let response = ChallengeResponse { solved_challenge: challenge_with("00", [0u8; 32], i64::MAX), solution: 3 };
    assert!(matches!(conclude(response, 1, 1), Err(SolveError::VerificationFailed)));
}
