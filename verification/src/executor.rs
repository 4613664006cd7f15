//! The sequential executor: consumes an ordered step list, records how each
//! launched step concluded, stops at the first non-success result, and
//! yields one terminal run outcome together with a model of the
//! orchestrator's own diagnostic stream.

use vstd::prelude::*;

use crate::catalog::Step;

verus! {

/// How one launched step concluded, as reported by the host environment.
#[derive(Debug)]
pub enum StepResult {
    /// The process ran and reported success.
    Passed,
    /// The process ran and reported a non-success status; the payload is
    /// the status's display text.
    FailedStatus(String),
    /// The process could not be launched at all; the payload is the launch
    /// error's display text.
    FailedLaunch(String),
}

/// One line of the orchestrator's own diagnostic stream, by kind.
/// Rendering each kind to text is left to the caller.
#[derive(Clone, Copy, PartialEq, Eq, Structural, Debug)]
pub enum Diag {
    /// Announcement, before launch, that the step at this position is
    /// about to run.
    Announce(usize),
    /// Note that the accelerated runner is unavailable and the standard
    /// fallback step is substituted.
    FallbackNote,
    /// Detail line: the step at this position failed.
    StepFailed(usize),
    /// Aggregate failure banner: the check run as a whole failed.
    FailBanner,
    /// Aggregate success banner: every step succeeded.
    PassBanner,
}

pub open spec fn step_passed(r: StepResult) -> bool {
    r is Passed
}

impl Clone for StepResult {
    /// A clone is equal to the original, including the carried text.
    fn clone(&self) -> (r: Self)
        ensures
            r == *self,
    {
        match self {
            StepResult::Passed => StepResult::Passed,
            StepResult::FailedStatus(s) => StepResult::FailedStatus(s.clone()),
            StepResult::FailedLaunch(s) => StepResult::FailedLaunch(s.clone()),
        }
    }
}

/// Why a failing step failed: its reported non-success status, or the
/// launch error — both kept as display text.
#[derive(Debug)]
pub enum FailReason {
    /// The step ran and reported this status.
    Status(String),
    /// The step could not be launched; this is the error description.
    Launch(String),
}

/// The terminal verdict of one full run.
#[derive(Debug)]
pub enum RunOutcome {
    /// Every step succeeded (vacuously so for an empty list).
    AllPassed,
    /// The step at `index` (0-based) was the first to fail; the run stopped
    /// there. `name` is that step's display name.
    StepFailed { index: usize, name: String, reason: FailReason },
}

/// Whether a recorded failure reason faithfully reflects how the step
/// concluded: same kind (status vs. launch) and same text.
pub open spec fn reason_matches(reason: FailReason, r: StepResult) -> bool {
    match (reason, r) {
        (FailReason::Status(a), StepResult::FailedStatus(b)) => a@ == b@,
        (FailReason::Launch(a), StepResult::FailedLaunch(b)) => a@ == b@,
        _ => false,
    }
}

/// The announcement lines for the steps at positions `0 .. n`, in order.
pub open spec fn announcements(n: int) -> Seq<Diag> {
    Seq::new(n as nat, |i: int| Diag::Announce(i as usize))
}

/// The sequential executor as an explicit state machine. The states are
/// pending-at-position (`outcome` empty, `pos` the next step to attempt),
/// and the two terminal states carried by `outcome`. `log` models the
/// orchestrator's own diagnostic stream; `history` records how each
/// attempted step concluded.
pub struct Executor {
    pub steps: Vec<Step>,
    /// Number of steps attempted so far; when running, also the position
    /// of the next step to attempt.
    pub pos: usize,
    /// Terminal verdict, once reached.
    pub outcome: Option<RunOutcome>,
    /// The diagnostic lines emitted so far, in order.
    pub log: Vec<Diag>,
    /// How each attempted step concluded, in order.
    pub history: Ghost<Seq<StepResult>>,
}

impl Executor {
    /// The executor's well-formedness invariant, tying state, history and
    /// log together. Established by `new` and preserved by `record`.
    pub open spec fn wf(self) -> bool {
        &&& self.history@.len() == self.pos
        &&& self.pos <= self.steps@.len()
        &&& match self.outcome {
            None => {
                // Pending: every step attempted so far passed, and a step
                // remains to run.
                &&& self.pos < self.steps@.len()
                &&& (forall|i: int| 0 <= i < self.pos ==> step_passed(#[trigger] self.history@[i]))
                &&& self.log@ == announcements(self.pos as int)
            },
            Some(RunOutcome::AllPassed) => {
                &&& self.pos == self.steps@.len()
                &&& (forall|i: int| 0 <= i < self.pos ==> step_passed(#[trigger] self.history@[i]))
                &&& self.log@ == announcements(self.pos as int).push(Diag::PassBanner)
            },
            Some(RunOutcome::StepFailed { index, name, reason }) => {
                &&& self.pos == index + 1
                &&& index < self.steps@.len()
                &&& (forall|i: int| 0 <= i < index ==> step_passed(#[trigger] self.history@[i]))
                &&& !step_passed(self.history@[index as int])
                &&& reason_matches(reason, self.history@[index as int])
                &&& name@ == self.steps@[index as int].name@
                &&& self.log@ == announcements(self.pos as int) + seq![
                    Diag::StepFailed(index),
                    Diag::FailBanner,
                ]
            },
        }
    }

    /// Starts a run over the given step list. An empty list is a valid
    /// no-op that trivially succeeds, with no step attempted; otherwise
    /// the executor is pending at the first step.
    pub fn new(steps: Vec<Step>) -> (r: Executor)
        ensures
            r.wf(),
            r.steps@ == steps@,
            r.pos == 0,
            r.history@ == Seq::<StepResult>::empty(),
            steps@.len() == 0 ==> r.outcome == Some(RunOutcome::AllPassed),
            steps@.len() > 0 ==> r.outcome is None,
    {
        if steps.len() == 0 {
            let r = Executor {
                steps,
                pos: 0,
                outcome: Some(RunOutcome::AllPassed),
                log: vec![Diag::PassBanner],
                history: Ghost(Seq::empty()),
            };
            proof {
                assert(r.log@ =~= announcements(0).push(Diag::PassBanner));
            }
            r
        } else {
            let r = Executor {
                steps,
                pos: 0,
                outcome: None,
                log: Vec::new(),
                history: Ghost(Seq::empty()),
            };
            proof {
                assert(r.log@ =~= announcements(0));
            }
            r
        }
    }

    /// The position of the step pending execution, or nothing once the run
    /// has reached a terminal state.
    pub fn next_index(&self) -> (r: Option<usize>)
        ensures
            r == (if self.outcome is None {
                Some(self.pos)
            } else {
                None::<usize>
            }),
    {
        match &self.outcome {
            None => Some(self.pos),
            Some(_) => None,
        }
    }

    /// Records how the pending step concluded and applies the fail-fast
    /// transition: on success the executor moves to the next step (or to
    /// the all-passed terminal state after the last one); on any failure
    /// it stops at once in the failed terminal state. The log gains the
    /// step's announcement and, when terminal, the failure detail and a
    /// banner.
    pub fn record(&mut self, result: StepResult)
        requires
            old(self).wf(),
            old(self).outcome is None,
        ensures
            final(self).wf(),
            final(self).steps@ == old(self).steps@,
            final(self).pos == old(self).pos + 1,
            final(self).history@ == old(self).history@.push(result),
            step_passed(result) && old(self).pos + 1 < old(self).steps@.len() ==> {
                &&& final(self).outcome is None
                &&& final(self).log@ == old(self).log@.push(Diag::Announce(old(self).pos))
            },
            step_passed(result) && old(self).pos + 1 == old(self).steps@.len() ==> {
                &&& final(self).outcome matches Some(o) && o is AllPassed
                &&& final(self).log@ == old(self).log@ + seq![
                    Diag::Announce(old(self).pos),
                    Diag::PassBanner,
                ]
            },
            !step_passed(result) ==> {
                &&& final(self).outcome matches Some(RunOutcome::StepFailed { index, name, reason })
                    && index == old(self).pos
                    && name@ == old(self).steps@[old(self).pos as int].name@
                    && reason_matches(reason, result)
                &&& final(self).log@ == old(self).log@ + seq![
                    Diag::Announce(old(self).pos),
                    Diag::StepFailed(old(self).pos),
                    Diag::FailBanner,
                ]
            },
    {
        let i = self.pos;
        let n = self.steps.len();
        proof {
            assert(i < n);
        }
        self.log.push(Diag::Announce(i));
        proof {
            assert(self.log@ =~= announcements(i + 1));
        }
        self.history = Ghost(self.history@.push(result));
        self.pos = i + 1;
        match result {
            StepResult::Passed => {
                if self.pos == self.steps.len() {
                    self.outcome = Some(RunOutcome::AllPassed);
                    self.log.push(Diag::PassBanner);
                }
            },
            StepResult::FailedStatus(s) => {
                let name = self.steps[i].name.clone();
                self.outcome = Some(RunOutcome::StepFailed {
                    index: i,
                    name,
                    reason: FailReason::Status(s),
                });
                self.log.push(Diag::StepFailed(i));
                self.log.push(Diag::FailBanner);
                proof {
                    assert(self.log@ =~= announcements(i + 1) + seq![
                        Diag::StepFailed(i),
                        Diag::FailBanner,
                    ]);
                }
            },
            StepResult::FailedLaunch(s) => {
                let name = self.steps[i].name.clone();
                self.outcome = Some(RunOutcome::StepFailed {
                    index: i,
                    name,
                    reason: FailReason::Launch(s),
                });
                self.log.push(Diag::StepFailed(i));
                self.log.push(Diag::FailBanner);
                proof {
                    assert(self.log@ =~= announcements(i + 1) + seq![
                        Diag::StepFailed(i),
                        Diag::FailBanner,
                    ]);
                }
            },
        }
    }
}

/// The position of the first non-success result, if any.
pub open spec fn first_fail(results: Seq<StepResult>) -> Option<int>
    decreases results.len(),
{
    if results.len() == 0 {
        None
    } else if !step_passed(results[0]) {
        Some(0)
    } else {
        match first_fail(results.drop_first()) {
            None => None::<int>,
            Some(k) => Some(k + 1),
        }
    }
}

/// How many steps a fail-fast run over `results` attempts: every position
/// up to and including the first failure, or all of them when none fails.
pub open spec fn spec_attempts(results: Seq<StepResult>) -> int {
    match first_fail(results) {
        None => results.len() as int,
        Some(k) => k + 1,
    }
}

/// Fail-fast law: when the result at position `k` is the first failure,
/// exactly the steps at positions `0 ..= k` are attempted — none after it.
pub proof fn lemma_fail_fast(results: Seq<StepResult>, k: int)
    requires
        0 <= k < results.len(),
        !step_passed(results[k]),
        forall|i: int| 0 <= i < k ==> step_passed(#[trigger] results[i]),
    ensures
        first_fail(results) == Some(k),
        spec_attempts(results) == k + 1,
    decreases k,
{
    if k > 0 {
        assert(step_passed(results[0]));
        assert(results.drop_first()[k - 1] == results[k]);
        assert(forall|i: int| 0 <= i < k - 1 ==> step_passed(
            #[trigger] results.drop_first()[i],
        ));
        lemma_fail_fast(results.drop_first(), k - 1);
    }
}

/// When every result passes, no failure exists and every step is attempted.
pub proof fn lemma_all_passed(results: Seq<StepResult>)
    requires
        forall|i: int| 0 <= i < results.len() ==> step_passed(#[trigger] results[i]),
    ensures
        first_fail(results) is None,
        spec_attempts(results) == results.len(),
    decreases results.len(),
{
    if results.len() > 0 {
        assert(forall|i: int| 0 <= i < results.len() - 1 ==> step_passed(
            #[trigger] results.drop_first()[i],
        ));
        lemma_all_passed(results.drop_first());
    }
}

/// When every step of a terminal run passed, the diagnostic log holds
/// exactly one announcement per step, in step order, followed by the
/// success banner and nothing else.
pub proof fn lemma_all_pass_diagnostics(r: Executor)
    requires
        r.wf(),
        r.outcome == Some(RunOutcome::AllPassed),
    ensures
        r.log@.len() == r.steps@.len() + 1,
        forall|i: int| 0 <= i < r.steps@.len() ==> r.log@[i] == Diag::Announce(i as usize),
        r.log@[r.steps@.len() as int] == Diag::PassBanner,
{
}

/// When a terminal run failed at position `k`, the log holds exactly the
/// announcements for positions `0 ..= k`, the failure detail and the
/// failure banner — in particular, no step after `k` was ever announced.
pub proof fn lemma_fail_diagnostics(r: Executor, k: usize)
    requires
        r.wf(),
        r.outcome matches Some(RunOutcome::StepFailed { index, .. }) && index == k,
    ensures
        r.pos == k + 1,
        r.log@.len() == k + 3,
        forall|i: int| 0 <= i <= k ==> r.log@[i] == Diag::Announce(i as usize),
        r.log@[k + 1] == Diag::StepFailed(k),
        r.log@[k + 2] == Diag::FailBanner,
        forall|j: usize| j > k ==> !r.log@.contains(Diag::Announce(j)),
{
    assert forall|j: usize| j > k implies !r.log@.contains(Diag::Announce(j)) by {
        assert forall|p: int| 0 <= p < r.log@.len() implies r.log@[p] != Diag::Announce(j) by {
            if p <= k {
                assert(r.log@[p] == Diag::Announce(p as usize));
            } else if p == k + 1 {
                assert(r.log@[p] == Diag::StepFailed(k));
            } else {
                assert(r.log@[p] == Diag::FailBanner);
            }
        }
    }
}

/// Replays a full run in which the step at each position concludes as the
/// result at the same position says. The run attempts steps strictly in
/// order, stops at the first failure, and never consults a result beyond
/// the stopping point; the returned executor is terminal and its log holds
/// one announcement per attempted step, in order, followed by the
/// appropriate detail and banner lines.
pub fn run_with_results(steps: Vec<Step>, results: &Vec<StepResult>) -> (r: Executor)
    requires
        results@.len() == steps@.len(),
    ensures
        r.wf(),
        !(r.outcome is None),
        r.steps@ == steps@,
        r.pos == spec_attempts(results@),
        r.history@ == results@.take(spec_attempts(results@)),
        first_fail(results@) is None ==> r.outcome == Some(RunOutcome::AllPassed),
        first_fail(results@) matches Some(k) ==> r.outcome matches Some(
            RunOutcome::StepFailed { index, name, reason },
        ) && index == k && name@ == steps@[k].name@ && reason_matches(reason, results@[k]),
{
    let mut ex = Executor::new(steps);
    proof {
        assert(ex.history@ =~= results@.take(0));
    }
    loop
        invariant
            ex.wf(),
            ex.steps@ == steps@,
            results@.len() == steps@.len(),
            ex.history@ == results@.take(ex.pos as int),
        ensures
            !(ex.outcome is None),
        decreases steps@.len() - ex.pos,
    {
        match ex.next_index() {
            Some(i) => {
                let res = results[i].clone();
                ex.record(res);
                proof {
                    assert(ex.history@ =~= results@.take(ex.pos as int));
                }
            },
            None => {
                break;
            },
        }
    }
    proof {
        let att = ex.pos as int;
        match ex.outcome {
            Some(RunOutcome::AllPassed) => {
                assert(results@.take(att) =~= results@);
                assert forall|i: int| 0 <= i < results@.len() implies step_passed(
                    #[trigger] results@[i],
                ) by {
                    assert(results@[i] == ex.history@[i]);
                }
                lemma_all_passed(results@);
            },
            Some(RunOutcome::StepFailed { index, .. }) => {
                let k = index as int;
                assert forall|i: int| 0 <= i < k implies step_passed(#[trigger] results@[i]) by {
                    assert(results@[i] == ex.history@[i]);
                }
                assert(results@[k] == ex.history@[k]);
                lemma_fail_fast(results@, k);
            },
            None => {
                assert(false);
            },
        }
    }
    ex
}

} // verus!
