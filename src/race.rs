use crate::challenge::ChallengeResponse;
use crate::worker::WorkerOutcome;
use vstd::prelude::*;

verus! {

/// The abstract state of a race among `workers` workers.
pub struct RaceModel {
    /// Number of workers the race started with.
    pub workers: int,
    /// Workers still searching, by index.
    pub running: Set<int>,
    /// Whether a solution has been accepted.
    pub found: bool,
    /// The worker whose solution was accepted.
    pub winner: Option<int>,
}

/// A race that has just started: every worker runs and nothing is found.
pub open spec fn race_start(n: int) -> RaceModel {
    RaceModel {
        workers: n,
        running: Set::new(|i: int| 0 <= i < n),
        found: false,
        winner: None,
    }
}

/// The race after worker `w` completes, with a solution when `success`.
///
/// Once a solution is accepted, or for a worker that is no longer running,
/// nothing changes. The first solution ends the race: its worker wins and
/// every other worker is cancelled. A failure removes its worker only.
pub open spec fn race_step(m: RaceModel, w: int, success: bool) -> RaceModel {
    if m.found || !m.running.contains(w) {
        m
    } else if success {
        RaceModel { running: Set::empty(), found: true, winner: Some(w), ..m }
    } else {
        RaceModel { running: m.running.remove(w), ..m }
    }
}

/// The race after the completions `events`, in the order they arrive; each
/// completion is a worker index and whether it brought a solution.
pub open spec fn race_replay(m: RaceModel, events: Seq<(int, bool)>) -> RaceModel
    decreases events.len(),
{
    if events.len() == 0 {
        m
    } else {
        race_replay(race_step(m, events[0].0, events[0].1), events.drop_first())
    }
}

/// Whether the completions `events` come from distinct workers below `n`.
pub open spec fn distinct_workers(n: int, events: Seq<(int, bool)>) -> bool {
    &&& forall|j: int| 0 <= j < events.len() ==> 0 <= #[trigger] events[j].0 < n
    &&& forall|a: int, b: int| 0 <= a < b < events.len() ==> #[trigger] events[a].0 != #[trigger] events[b].0
}

/// The workers that appear among the completions `events`.
pub open spec fn completed_workers(events: Seq<(int, bool)>) -> Set<int> {
    Set::new(|w: int| exists|j: int| 0 <= j < events.len() && #[trigger] events[j].0 == w)
}

/// A decided race stays as it is, whatever completes afterwards.
pub proof fn decided_race_is_final(m: RaceModel, events: Seq<(int, bool)>)
    requires
        m.found,
    ensures
        race_replay(m, events) == m,
    decreases events.len(),
{
    if events.len() > 0 {
        decided_race_is_final(race_step(m, events[0].0, events[0].1), events.drop_first());
    }
}

/// Failures only remove their workers from the running set.
proof fn failures_remove_workers(m: RaceModel, events: Seq<(int, bool)>)
    requires
        !m.found,
        forall|j: int| 0 <= j < events.len() ==> !(#[trigger] events[j].1),
    ensures
        !race_replay(m, events).found,
        race_replay(m, events).winner == m.winner,
        race_replay(m, events).running == m.running.difference(completed_workers(events)),
    decreases events.len(),
{
    if events.len() == 0 {
        assert(m.running.difference(completed_workers(events)) =~= m.running);
    } else {
        let m1 = race_step(m, events[0].0, false);
        let rest = events.drop_first();
        assert forall|j: int| 0 <= j < rest.len() implies !(#[trigger] rest[j].1) by {
            assert(rest[j] == events[j + 1]);
        }
        failures_remove_workers(m1, rest);
        assert(m1.running == m.running.remove(events[0].0));
        assert forall|w: int| completed_workers(events).contains(w) <==> (w == events[0].0
            || completed_workers(rest).contains(w)) by {
            if completed_workers(events).contains(w) && w != events[0].0 {
                let j = choose|j: int| 0 <= j < events.len() && #[trigger] events[j].0 == w;
                assert(j != 0);
                assert(rest[j - 1].0 == w);
            }
            if completed_workers(rest).contains(w) {
                let j = choose|j: int| 0 <= j < rest.len() && #[trigger] rest[j].0 == w;
                assert(events[j + 1].0 == w);
            }
            if w == events[0].0 {
                assert(events[0].0 == w);
            }
        }
        assert(m.running.remove(events[0].0).difference(completed_workers(rest)) =~= m.running.difference(
            completed_workers(events),
        ));
    }
}

/// From an undecided state, failures followed by a solution from a worker
/// that is still running give the race to that worker.
proof fn solution_after_failures_wins(m: RaceModel, events: Seq<(int, bool)>, k: int)
    requires
        !m.found,
        0 <= k < events.len(),
        events[k].1,
        m.running.contains(events[k].0),
        forall|j: int| 0 <= j < k ==> !(#[trigger] events[j].1),
        forall|j: int| 0 <= j < k ==> #[trigger] events[j].0 != events[k].0,
    ensures
        race_replay(m, events).found,
        race_replay(m, events).winner == Some(events[k].0),
        race_replay(m, events).running.is_empty(),
    decreases k,
{
    let m1 = race_step(m, events[0].0, events[0].1);
    let rest = events.drop_first();
    if k == 0 {
        decided_race_is_final(m1, rest);
    } else {
        assert(!events[0].1);
        assert(events[0].0 != events[k].0);
        assert(rest[k - 1] == events[k]);
        assert forall|j: int| 0 <= j < k - 1 implies !(#[trigger] rest[j].1) && rest[j].0 != rest[k - 1].0 by {
            assert(rest[j] == events[j + 1]);
        }
        solution_after_failures_wins(m1, rest, k - 1);
    }
}

/// First success wins: when workers complete in the order `events`, each at
/// most once, the race goes to the worker of the first completion that brings
/// a solution. Completions arrive in order of the workers' delays, so among
/// workers that all find a solution the one with the shortest delay wins;
/// every other worker is cancelled, and what completes later changes nothing.
pub proof fn first_solution_wins(n: int, events: Seq<(int, bool)>, k: int)
    requires
        distinct_workers(n, events),
        0 <= k < events.len(),
        events[k].1,
        forall|j: int| 0 <= j < k ==> !(#[trigger] events[j].1),
    ensures
        race_replay(race_start(n), events).found,
        race_replay(race_start(n), events).winner == Some(events[k].0),
        race_replay(race_start(n), events).running.is_empty(),
{
    assert forall|j: int| 0 <= j < k implies #[trigger] events[j].0 != events[k].0 by {
        assert(events[j].0 != events[k].0);
    }
    assert(0 <= events[k].0 < n);
    solution_after_failures_wins(race_start(n), events, k);
}

/// When every worker completes with a failure the race ends with no worker
/// running and no solution: the coordinator reports that none was found.
pub proof fn all_failures_exhaust_the_race(n: int, events: Seq<(int, bool)>)
    requires
        forall|j: int| 0 <= j < events.len() ==> !(#[trigger] events[j].1),
        forall|w: int| 0 <= w < n ==> #[trigger] completed_workers(events).contains(w),
    ensures
        !race_replay(race_start(n), events).found,
        race_replay(race_start(n), events).winner is None,
        race_replay(race_start(n), events).running.is_empty(),
{
    failures_remove_workers(race_start(n), events);
    assert(race_start(n).running.difference(completed_workers(events)) =~= Set::<int>::empty());
}

/// What the coordinator does after one completion.
#[derive(Debug)]
pub enum RaceStep {
    /// The completion brought the race's solution; the listed workers are
    /// still running and are to be cancelled.
    Accepted { solution: ChallengeResponse, cancel: Vec<usize> },
    /// A worker failed and others are still searching.
    Continue,
    /// The last running worker failed: no solution was found. Carries that
    /// worker's failure reason.
    Exhausted { reason: String },
    /// The completion came after the race was decided, or from a worker that
    /// is not running; it changes nothing.
    Ignored,
}

/// The coordinator of a first-success-wins race among workers.
///
/// Invariant: at most one solution is ever accepted; the found flag goes from
/// false to true once and never back, and when it is set no worker is left
/// running.
pub struct RaceState {
    running: Vec<bool>,
    found: bool,
    winner: Option<usize>,
}

impl View for RaceState {
    type V = RaceModel;

    closed spec fn view(&self) -> RaceModel {
        RaceModel {
            workers: self.running@.len() as int,
            running: Set::new(|i: int| 0 <= i < self.running@.len() && self.running@[i]),
            found: self.found,
            winner: match self.winner {
                Some(w) => Some(w as int),
                None => None,
            },
        }
    }
}

impl RaceState {
    pub closed spec fn wf(&self) -> bool {
        &&& self.found ==> forall|i: int| 0 <= i < self.running@.len() ==> !self.running@[i]
        &&& (self.found <==> self.winner is Some)
        &&& self.winner matches Some(w) ==> w < self.running@.len()
    }

    /// A race among `n` workers, all of them running.
    pub fn new(n: usize) -> (r: RaceState)
        ensures
            r.wf(),
            r@ == race_start(n as int),
    {
        let mut running: Vec<bool> = Vec::new();
        let mut i: usize = 0;
        while i < n
            invariant
                i <= n,
                running@.len() == i,
                forall|j: int| 0 <= j < i ==> running@[j],
            decreases n - i,
        {
            running.push(true);
            i = i + 1;
        }
        let r = RaceState { running, found: false, winner: None };
        assert(r@.running =~= race_start(n as int).running);
        r
    }

    /// Whether a solution has been accepted.
    pub fn is_found(&self) -> (r: bool)
        ensures
            r == self@.found,
    {
        self.found
    }

    /// The worker whose solution was accepted, if any.
    pub fn winner(&self) -> (r: Option<usize>)
        requires
            self.wf(),
        ensures
            r is Some <==> self@.winner is Some,
            r is Some ==> self@.winner == Some(r->Some_0 as int),
    {
        self.winner
    }

    /// Whether any worker is still running.
    pub fn any_running(&self) -> (r: bool)
        ensures
            r == !self@.running.is_empty(),
    {
        let mut i: usize = 0;
        while i < self.running.len()
            invariant
                i <= self.running@.len(),
                forall|j: int| 0 <= j < i ==> !self.running@[j],
            decreases self.running@.len() - i,
        {
            if self.running[i] {
                assert(self@.running.contains(i as int));
                return true;
            }
            i = i + 1;
        }
        assert(self@.running =~= Set::<int>::empty());
        false
    }

    /// The running workers other than `w`, in increasing order.
    fn others_running(&self, w: usize) -> (r: Vec<usize>)
        ensures
            forall|k: int| 0 <= k < r.len() ==> self@.running.contains(r[k] as int) && r[k] != w,
            forall|i: int| self@.running.contains(i) && i != w ==> r@.contains(i as usize),
            forall|a: int, b: int| 0 <= a < b < r.len() ==> r[a] < r[b],
    {
        let mut out: Vec<usize> = Vec::new();
        let mut i: usize = 0;
        while i < self.running.len()
            invariant
                i <= self.running@.len(),
                forall|k: int| 0 <= k < out.len() ==> self@.running.contains(out[k] as int) && out[k] != w && out[k] < i,
                forall|j: int| 0 <= j < i && self@.running.contains(j) && j != w ==> out@.contains(j as usize),
                forall|a: int, b: int| 0 <= a < b < out.len() ==> out[a] < out[b],
            decreases self.running@.len() - i,
        {
            if self.running[i] && i != w {
                let ghost prev = out@;
                out.push(i);
                assert(out@[out.len() - 1] == i);
                assert forall|j: int| 0 <= j < i && self@.running.contains(j) && j != w implies out@.contains(
                    j as usize,
                ) by {
                    let k = choose|k: int| 0 <= k < prev.len() && prev[k] == j as usize;
                    assert(out@[k] == j as usize);
                }
            }
            i = i + 1;
        }
        out
    }

    /// Takes the completion of worker `worker` with `outcome`.
    ///
    /// The first solution from a running worker is accepted and ends the
    /// race; a failure removes its worker and the race goes on among the rest,
    /// and when none is left the race is exhausted. Completions after the
    /// race is decided are ignored.
    pub fn record(&mut self, worker: usize, outcome: WorkerOutcome) -> (r: RaceStep)
        requires
            old(self).wf(),
        ensures
            final(self).wf(),
            final(self)@ == race_step(old(self)@, worker as int, outcome is Solution),
            (old(self)@.found || !old(self)@.running.contains(worker as int)) <==> r is Ignored,
            r matches RaceStep::Accepted { solution, cancel } ==> {
                &&& outcome is Solution
                &&& solution == outcome->Solution_0
                &&& forall|k: int| 0 <= k < cancel.len() ==> old(self)@.running.contains(cancel[k] as int) && cancel[k] != worker
                &&& forall|i: int| old(self)@.running.contains(i) && i != worker ==> cancel@.contains(i as usize)
                &&& forall|a: int, b: int| 0 <= a < b < cancel.len() ==> cancel[a] < cancel[b]
            },
            !(r is Ignored) ==> (r is Accepted <==> outcome is Solution),
            r is Exhausted <==> (!(r is Ignored) && outcome is Failure && final(self)@.running.is_empty()),
            r matches RaceStep::Exhausted { reason } ==> outcome matches WorkerOutcome::Failure(e) && reason == e,
            r is Continue <==> (!(r is Ignored) && outcome is Failure && !final(self)@.running.is_empty()),
    {
        if self.found || worker >= self.running.len() || !self.running[worker] {
            return RaceStep::Ignored;
        }
        let ghost before = self@;
        match outcome {
            WorkerOutcome::Solution(solution) => {
                let cancel = self.others_running(worker);
                let n = self.running.len();
                let mut i: usize = 0;
                while i < n
                    invariant
                        n == self.running@.len(),
                        i <= n,
                        !self.found,
                        self.winner is None,
                        forall|j: int| 0 <= j < i ==> !self.running@[j],
                    decreases n - i,
                {
                    self.running.set(i, false);
                    i = i + 1;
                }
                self.found = true;
                self.winner = Some(worker);
                assert(self@.running =~= Set::<int>::empty());
                RaceStep::Accepted { solution, cancel }
            },
            WorkerOutcome::Failure(reason) => {
                self.running.set(worker, false);
                assert(self@.running =~= before.running.remove(worker as int));
                if self.any_running() {
                    RaceStep::Continue
                } else {
                    RaceStep::Exhausted { reason }
                }
            },
        }
    }
}

} // verus!
