//! The stress test: generate an input, run the reference on it, run every
//! candidate on it, judge, and go on until a candidate fails or the
//! iterations are used up.
//!
//! The search is a state machine. A [`Session`] names the next process to
//! run; the caller runs it and hands the outcome to [`Session::step`], which
//! answers with the notices to show and the next thing to do.

use crate::checkers::Checker;
use crate::error::Error;
use crate::fitness::external_score;
use crate::fitness::score_of_run;
use crate::fitness::Fitness;
use crate::runner::ExecutionOutcome;
use crate::runner::FailureReason;
use crate::strres::StrRes;
use crate::testing::judge;
use crate::testing::settle;
use crate::testing::settled;
use crate::testing::test_single;
use crate::testing::Evaluation;
use crate::testing::Judgement;
use crate::testing::TestResult;
use vstd::prelude::*;

verus! {

/// What a stress test is to do.
#[derive(Clone, Copy, Debug, PartialEq, Eq, Structural)]
pub struct Plan {
    /// How many executables are under test, the reference not counted.
    pub candidates: usize,
    /// How a candidate's output is judged against the reference's.
    pub checker: Checker,
    /// How many iterations to run, keeping the best counterexample. Without
    /// a count the search stops at the first failing iteration.
    pub count: Option<i64>,
    /// How counterexamples are ranked.
    pub fitness: Fitness,
    /// The nanoseconds that the reference and each candidate may take.
    pub time_limit: Option<u64>,
    /// Whether a failure of the generator is passed over.
    pub ignore_generator_fail: bool,
}

/// The executables that a session asks to have run.
#[derive(Clone, Copy, Debug, PartialEq, Eq, Structural)]
pub enum Probe {
    Generator,
    Reference,
    /// The candidate with this index, counted from 0.
    Candidate(usize),
    /// The external scorer.
    Fitness,
}

/// What the session has to tell whoever watches it. Iterations are numbered
/// from 1; durations are in nanoseconds.
#[derive(Clone, Copy, Debug, PartialEq, Eq, Structural)]
pub enum Notice {
    /// The generator failed in this iteration, which will be tried again.
    GeneratorFail(i64),
    /// The generator made the input of this iteration.
    Autogenerated(i64),
    /// The reference completed, after this long.
    Good(u64),
    /// The reference failed, after this long.
    Bad(u64),
    /// A candidate was judged so, after this long; if its run failed, for
    /// this reason.
    Piece(TestResult, u64, Option<FailureReason>),
    /// Every candidate of the iteration has run.
    PieceFinish,
}

/// How a stress test ended.
#[derive(Debug, PartialEq, Eq)]
pub enum Conclusion {
    /// The input to show: the first failing one, or the best of those found.
    Found(StrRes),
    /// No iteration failed.
    NotFound,
    /// The search could not go on.
    Failed(Error),
}

/// What the caller is to do next.
#[derive(Debug, PartialEq, Eq)]
pub enum Command {
    /// Run the executable on `input` under the time limit, if any, and hand
    /// the outcome to `step`.
    Run { probe: Probe, input: StrRes, time_limit: Option<u64> },
    /// Run the external checker on what the candidate with this index wrote,
    /// and hand the outcome to `step`.
    Check { candidate: usize, input: StrRes, output: StrRes, expected: StrRes },
    /// Stop.
    Done(Conclusion),
}

/// The answer to one outcome: what to show, then what to do.
#[derive(Debug, PartialEq, Eq)]
pub struct Step {
    pub notices: Vec<Notice>,
    pub command: Command,
}

/// Where in an iteration a session stands, and what it holds meanwhile.
#[derive(Debug, PartialEq, Eq)]
pub enum Stage {
    /// The generator is running.
    Generating,
    /// The reference is running on `input`.
    Reference { input: StrRes },
    /// The candidate `index` is running on `input`. `all_ok` says whether
    /// the reference completed and every candidate before was accepted.
    Candidate { input: StrRes, expected: Option<StrRes>, index: usize, all_ok: bool },
    /// The external checker is running on what the candidate `index` wrote
    /// in `duration` nanoseconds.
    Checking {
        input: StrRes,
        against: StrRes,
        index: usize,
        all_ok: bool,
        output: StrRes,
        duration: u64,
    },
    /// The external scorer is running on the failing `input`.
    Scoring { input: StrRes },
    /// The search is over.
    Finished,
}

/// All that a session knows.
#[derive(Debug, PartialEq, Eq)]
pub struct State {
    pub plan: Plan,
    /// The iterations that have been completed and counted.
    pub done: i64,
    /// The best counterexample so far, with its score.
    pub best: Option<(StrRes, i64)>,
    pub stage: Stage,
}

/// One move of the machine: the state it reaches, what it shows, and what it
/// asks for.
pub struct Move {
    pub state: State,
    pub notices: Seq<Notice>,
    pub command: Command,
}

/// The number of iterations after which the search ends by itself: the
/// count if there is one, and otherwise as many as can be numbered.
pub open spec fn limit(plan: Plan) -> int {
    match plan.count {
        Some(n) => n as int,
        None => i64::MAX as int,
    }
}

impl State {
    /// What holds of every state that a session reaches: the counter stays
    /// within the limit, and below it while the search goes on; the
    /// candidate at work is one of the plan's; and a counterexample is
    /// scored and kept back only where a count was given.
    pub open spec fn wf(self) -> bool {
        &&& 0 <= self.done
        &&& self.stage !is Finished ==> self.done < limit(self.plan)
        &&& self.stage matches Stage::Candidate { index, .. } ==> index < self.plan.candidates
        &&& self.stage matches Stage::Checking { index, .. } ==> index < self.plan.candidates
        &&& self.stage is Scoring ==> self.plan.count is Some
        &&& self.plan.count is None ==> self.best is None
    }
}

/// The record to keep when `input` with `score` joins `best`: the newcomer
/// only if nothing was kept so far or its score is strictly greater.
pub open spec fn retain(best: Option<(StrRes, i64)>, input: StrRes, score: i64) -> Option<
    (StrRes, i64),
> {
    match best {
        Some(kept) => if score > kept.1 {
            Some((input, score))
        } else {
            best
        },
        None => Some((input, score)),
    }
}

/// The end of the search for an error that cannot be passed over.
pub open spec fn fatal(s: State, e: Error) -> Move {
    Move {
        state: State { stage: Stage::Finished, best: None, ..s },
        notices: Seq::empty(),
        command: Command::Done(Conclusion::Failed(e)),
    }
}

/// What follows once `done` iterations are counted: the generator is asked
/// for the next input while the limit is not reached; else the search ends,
/// with the best counterexample if there is one.
pub open spec fn next_round(
    plan: Plan,
    done: int,
    best: Option<(StrRes, i64)>,
    notices: Seq<Notice>,
) -> Move {
    if done < limit(plan) {
        Move {
            state: State { plan, done: done as i64, best, stage: Stage::Generating },
            notices,
            command: Command::Run { probe: Probe::Generator, input: StrRes::Empty, time_limit: None },
        }
    } else {
        Move {
            state: State { plan, done: done as i64, best: None, stage: Stage::Finished },
            notices,
            command: Command::Done(
                match best {
                    Some(kept) => Conclusion::Found(kept.0),
                    None => Conclusion::NotFound,
                },
            ),
        }
    }
}

/// The first move of a search.
pub open spec fn opening(plan: Plan) -> Move {
    next_round(plan, 0, None, Seq::empty())
}

/// What follows a run of the generator. Its output becomes the input of the
/// iteration, on which the reference is run. If it failed, the search ends,
/// or, where failures are ignored, the generator is run again under the same
/// iteration number.
pub open spec fn after_generator(s: State, outcome: ExecutionOutcome) -> Move {
    match outcome {
        ExecutionOutcome::Completed { output, .. } => Move {
            state: State { stage: Stage::Reference { input: output }, ..s },
            notices: seq![Notice::Autogenerated((s.done + 1) as i64)],
            command: Command::Run {
                probe: Probe::Reference,
                input: output,
                time_limit: s.plan.time_limit,
            },
        },
        ExecutionOutcome::Failed { .. } => if s.plan.ignore_generator_fail {
            Move {
                state: s,
                notices: seq![Notice::GeneratorFail((s.done + 1) as i64)],
                command: Command::Run {
                    probe: Probe::Generator,
                    input: StrRes::Empty,
                    time_limit: None,
                },
            }
        } else {
            fatal(s, Error::GenerationFailure)
        },
    }
}

/// What follows once the candidates before `index` have run: the candidate
/// `index` is run on the input, or, if there is none, the iteration closes.
pub open spec fn candidates_from(
    s: State,
    input: StrRes,
    expected: Option<StrRes>,
    index: int,
    all_ok: bool,
    notices: Seq<Notice>,
) -> Move {
    if index < s.plan.candidates {
        Move {
            state: State {
                stage: Stage::Candidate { input, expected, index: index as usize, all_ok },
                ..s
            },
            notices,
            command: Command::Run {
                probe: Probe::Candidate(index as usize),
                input,
                time_limit: s.plan.time_limit,
            },
        }
    } else {
        close_round(s, input, all_ok, notices.push(Notice::PieceFinish))
    }
}

/// What follows a run of the reference on `input`: its output, if it
/// completed, is what the candidates are judged against, and without it the
/// iteration has failed already.
pub open spec fn after_reference(s: State, input: StrRes, outcome: ExecutionOutcome) -> Move {
    match outcome {
        ExecutionOutcome::Completed { output, duration } => candidates_from(
            s,
            input,
            Some(output),
            0,
            true,
            seq![Notice::Good(duration)],
        ),
        ExecutionOutcome::Failed { duration, .. } => candidates_from(
            s,
            input,
            None,
            0,
            false,
            seq![Notice::Bad(duration)],
        ),
    }
}

/// What follows once the candidate `index` has been judged: its verdict is
/// shown, anything but an accept fails the iteration, and the next candidate
/// has its turn.
pub open spec fn after_verdict(
    s: State,
    input: StrRes,
    expected: Option<StrRes>,
    index: usize,
    all_ok: bool,
    evaluation: Evaluation,
) -> Move {
    candidates_from(
        s,
        input,
        expected,
        index + 1,
        all_ok && evaluation.verdict == TestResult::Accept,
        seq![Notice::Piece(evaluation.verdict, evaluation.duration, evaluation.failure)],
    )
}

/// What follows a run of the candidate `index` on `input`.
pub open spec fn after_candidate(
    s: State,
    input: StrRes,
    expected: Option<StrRes>,
    index: usize,
    all_ok: bool,
    outcome: ExecutionOutcome,
) -> Move {
    match judge(outcome, expected, s.plan.checker) {
        Judgement::Settled(evaluation) => after_verdict(
            s,
            input,
            expected,
            index,
            all_ok,
            evaluation,
        ),
        Judgement::AskChecker { output, duration } => Move {
            state: State {
                stage: Stage::Checking {
                    input,
                    against: expected->0,
                    index,
                    all_ok,
                    output,
                    duration,
                },
                ..s
            },
            notices: Seq::empty(),
            command: Command::Check { candidate: index, input, output, expected: expected->0 },
        },
    }
}

/// What follows a run of the external checker on the `output` of the
/// candidate `index`.
pub open spec fn after_checker(
    s: State,
    input: StrRes,
    expected: StrRes,
    index: usize,
    all_ok: bool,
    output: StrRes,
    duration: u64,
    outcome: ExecutionOutcome,
) -> Move {
    match settled(output, duration, outcome) {
        Ok(evaluation) => after_verdict(s, input, Some(expected), index, all_ok, evaluation),
        Err(e) => fatal(s, e),
    }
}

/// What follows the last candidate of an iteration. An iteration that
/// passed is counted, and the next begins. One that failed ends the search
/// with its input where no count was given; else its input is scored, kept
/// if it is the best, and the iteration is counted.
pub open spec fn close_round(s: State, input: StrRes, all_ok: bool, notices: Seq<Notice>) -> Move {
    if all_ok {
        next_round(s.plan, s.done + 1, s.best, notices)
    } else if s.plan.count is None {
        Move {
            state: State { stage: Stage::Finished, best: None, ..s },
            notices,
            command: Command::Done(Conclusion::Found(input)),
        }
    } else {
        match s.plan.fitness.spec_fitness(input@) {
            Some(score) => next_round(s.plan, s.done + 1, retain(s.best, input, score), notices),
            None => Move {
                state: State { stage: Stage::Scoring { input }, ..s },
                notices,
                command: Command::Run { probe: Probe::Fitness, input, time_limit: None },
            },
        }
    }
}

/// What follows a run of the external scorer on the failing `input`.
pub open spec fn after_scorer(s: State, input: StrRes, outcome: ExecutionOutcome) -> Move {
    match external_score(outcome) {
        Ok(score) => next_round(s.plan, s.done + 1, retain(s.best, input, score), Seq::empty()),
        Err(e) => fatal(s, e),
    }
}

/// The move that the outcome of the run asked for last brings about. A
/// search that is over stays as it is.
pub open spec fn advance(s: State, outcome: ExecutionOutcome) -> Move {
    match s.stage {
        Stage::Generating => after_generator(s, outcome),
        Stage::Reference { input } => after_reference(s, input, outcome),
        Stage::Candidate { input, expected, index, all_ok } => after_candidate(
            s,
            input,
            expected,
            index,
            all_ok,
            outcome,
        ),
        Stage::Checking { input, against, index, all_ok, output, duration } => after_checker(
            s,
            input,
            against,
            index,
            all_ok,
            output,
            duration,
            outcome,
        ),
        Stage::Scoring { input } => after_scorer(s, input, outcome),
        Stage::Finished => Move {
            state: s,
            notices: Seq::empty(),
            command: Command::Done(Conclusion::NotFound),
        },
    }
}

/// The move that a state and a step, as the functions below return them,
/// stand for.
spec fn moved(r: (State, Step)) -> Move {
    Move { state: r.0, notices: r.1.notices@, command: r.1.command }
}

/// What the functions below need of the state they start from: an iteration
/// is under way, so the limit is not reached.
spec fn under_way(s: State) -> bool {
    &&& 0 <= s.done < limit(s.plan)
    &&& s.plan.count is None ==> s.best is None
}

fn keep_better(best: Option<(StrRes, i64)>, input: StrRes, score: i64) -> (r: Option<
    (StrRes, i64),
>)
    ensures
        r == retain(best, input, score),
{
    match best {
        Some(kept) => if score > kept.1 {
            Some((input, score))
        } else {
            Some(kept)
        },
        None => Some((input, score)),
    }
}

fn abort(s: State, e: Error) -> (r: (State, Step))
    requires
        0 <= s.done,
    ensures
        moved(r) == fatal(s, e),
        r.0.wf(),
{
    (
        State { plan: s.plan, done: s.done, best: None, stage: Stage::Finished },
        Step { notices: Vec::new(), command: Command::Done(Conclusion::Failed(e)) },
    )
}

fn begin_round(plan: Plan, done: i64, best: Option<(StrRes, i64)>, notices: Vec<Notice>) -> (r: (
    State,
    Step,
))
    requires
        0 <= done,
        plan.count is None ==> best is None,
    ensures
        moved(r) == next_round(plan, done as int, best, notices@),
        r.0.wf(),
{
    let more = match plan.count {
        Some(n) => done < n,
        None => done < i64::MAX,
    };
    if more {
        (
            State { plan, done, best, stage: Stage::Generating },
            Step {
                notices,
                command: Command::Run {
                    probe: Probe::Generator,
                    input: StrRes::Empty,
                    time_limit: None,
                },
            },
        )
    } else {
        let conclusion = match best {
            Some(kept) => Conclusion::Found(kept.0),
            None => Conclusion::NotFound,
        };
        (
            State { plan, done, best: None, stage: Stage::Finished },
            Step { notices, command: Command::Done(conclusion) },
        )
    }
}

fn on_generator(s: State, outcome: ExecutionOutcome) -> (r: (State, Step))
    requires
        under_way(s),
        s.stage is Generating,
    ensures
        moved(r) == after_generator(s, outcome),
        r.0.wf(),
{
    let mut notices: Vec<Notice> = Vec::new();
    match outcome {
        ExecutionOutcome::Completed { output, .. } => {
            notices.push(Notice::Autogenerated(s.done + 1));
            let input = output.clone();
            (
                State {
                    plan: s.plan,
                    done: s.done,
                    best: s.best,
                    stage: Stage::Reference { input: output },
                },
                Step {
                    notices,
                    command: Command::Run {
                        probe: Probe::Reference,
                        input,
                        time_limit: s.plan.time_limit,
                    },
                },
            )
        },
        ExecutionOutcome::Failed { .. } => {
            if s.plan.ignore_generator_fail {
                notices.push(Notice::GeneratorFail(s.done + 1));
                (
                    s,
                    Step {
                        notices,
                        command: Command::Run {
                            probe: Probe::Generator,
                            input: StrRes::Empty,
                            time_limit: None,
                        },
                    },
                )
            } else {
                abort(s, Error::GenerationFailure)
            }
        },
    }
}

fn end_round(s: State, input: StrRes, all_ok: bool, notices: Vec<Notice>) -> (r: (State, Step))
    requires
        under_way(s),
    ensures
        moved(r) == close_round(s, input, all_ok, notices@),
        r.0.wf(),
{
    if all_ok {
        begin_round(s.plan, s.done + 1, s.best, notices)
    } else if s.plan.count.is_none() {
        (
            State { plan: s.plan, done: s.done, best: None, stage: Stage::Finished },
            Step { notices, command: Command::Done(Conclusion::Found(input)) },
        )
    } else {
        match s.plan.fitness.fitness(&input) {
            Some(score) => {
                let best = keep_better(s.best, input, score);
                begin_round(s.plan, s.done + 1, best, notices)
            },
            None => {
                let failing = input.clone();
                (
                    State {
                        plan: s.plan,
                        done: s.done,
                        best: s.best,
                        stage: Stage::Scoring { input },
                    },
                    Step {
                        notices,
                        command: Command::Run {
                            probe: Probe::Fitness,
                            input: failing,
                            time_limit: None,
                        },
                    },
                )
            },
        }
    }
}

fn run_candidates_from(
    s: State,
    input: StrRes,
    expected: Option<StrRes>,
    index: usize,
    all_ok: bool,
    notices: Vec<Notice>,
) -> (r: (State, Step))
    requires
        under_way(s),
    ensures
        moved(r) == candidates_from(s, input, expected, index as int, all_ok, notices@),
        r.0.wf(),
{
    if index < s.plan.candidates {
        let handed = input.clone();
        (
            State {
                plan: s.plan,
                done: s.done,
                best: s.best,
                stage: Stage::Candidate { input, expected, index, all_ok },
            },
            Step {
                notices,
                command: Command::Run {
                    probe: Probe::Candidate(index),
                    input: handed,
                    time_limit: s.plan.time_limit,
                },
            },
        )
    } else {
        let mut notices = notices;
        notices.push(Notice::PieceFinish);
        end_round(s, input, all_ok, notices)
    }
}

fn on_reference(s: State, input: StrRes, outcome: ExecutionOutcome) -> (r: (State, Step))
    requires
        under_way(s),
    ensures
        moved(r) == after_reference(s, input, outcome),
        r.0.wf(),
{
    let mut notices: Vec<Notice> = Vec::new();
    match outcome {
        ExecutionOutcome::Completed { output, duration } => {
            notices.push(Notice::Good(duration));
            run_candidates_from(s, input, Some(output), 0, true, notices)
        },
        ExecutionOutcome::Failed { duration, .. } => {
            notices.push(Notice::Bad(duration));
            run_candidates_from(s, input, None, 0, false, notices)
        },
    }
}

fn on_verdict(
    s: State,
    input: StrRes,
    expected: Option<StrRes>,
    index: usize,
    all_ok: bool,
    evaluation: Evaluation,
) -> (r: (State, Step))
    requires
        under_way(s),
        index < s.plan.candidates,
    ensures
        moved(r) == after_verdict(s, input, expected, index, all_ok, evaluation),
        r.0.wf(),
{
    let mut notices: Vec<Notice> = Vec::new();
    notices.push(Notice::Piece(evaluation.verdict, evaluation.duration, evaluation.failure));
    let accepted = evaluation.verdict == TestResult::Accept;
    run_candidates_from(s, input, expected, index + 1, all_ok && accepted, notices)
}

fn on_candidate(
    s: State,
    input: StrRes,
    expected: Option<StrRes>,
    index: usize,
    all_ok: bool,
    outcome: ExecutionOutcome,
) -> (r: (State, Step))
    requires
        under_way(s),
        index < s.plan.candidates,
    ensures
        moved(r) == after_candidate(s, input, expected, index, all_ok, outcome),
        r.0.wf(),
{
    match test_single(outcome, &input, expected.as_ref(), s.plan.checker) {
        Judgement::Settled(evaluation) => on_verdict(s, input, expected, index, all_ok, evaluation),
        Judgement::AskChecker { output, duration } => {
            let against = expected.unwrap();
            let command = Command::Check {
                candidate: index,
                input: input.clone(),
                output: output.clone(),
                expected: against.clone(),
            };
            (
                State {
                    plan: s.plan,
                    done: s.done,
                    best: s.best,
                    stage: Stage::Checking { input, against, index, all_ok, output, duration },
                },
                Step { notices: Vec::new(), command },
            )
        },
    }
}

fn on_checker(
    s: State,
    input: StrRes,
    expected: StrRes,
    index: usize,
    all_ok: bool,
    output: StrRes,
    duration: u64,
    outcome: ExecutionOutcome,
) -> (r: (State, Step))
    requires
        under_way(s),
        index < s.plan.candidates,
    ensures
        moved(r) == after_checker(s, input, expected, index, all_ok, output, duration, outcome),
        r.0.wf(),
{
    match settle(output, duration, &outcome) {
        Ok(evaluation) => on_verdict(s, input, Some(expected), index, all_ok, evaluation),
        Err(e) => abort(s, e),
    }
}

fn on_scorer(s: State, input: StrRes, outcome: ExecutionOutcome) -> (r: (State, Step))
    requires
        under_way(s),
        s.plan.count is Some,
    ensures
        moved(r) == after_scorer(s, input, outcome),
        r.0.wf(),
{
    match score_of_run(&outcome) {
        Ok(score) => {
            let best = keep_better(s.best, input, score);
            begin_round(s.plan, s.done + 1, best, Vec::new())
        },
        Err(e) => abort(s, e),
    }
}

/// A stress test under way.
pub struct Session {
    state: State,
}

impl View for Session {
    type V = State;

    closed spec fn view(&self) -> State {
        self.state
    }
}

impl Session {
    #[verifier::type_invariant]
    spec fn inv(self) -> bool {
        self.state.wf()
    }

    /// Begins a stress test, and says what to run first.
    pub fn start(plan: Plan) -> (r: (Session, Step))
        ensures
            (Move { state: r.0@, notices: r.1.notices@, command: r.1.command }) == opening(plan),
            r.0@.wf(),
    {
        let (state, step) = begin_round(plan, 0, None, Vec::new());
        (Session { state }, step)
    }

    /// Takes the outcome of the run that was asked for last, and says what
    /// to show and what to do next. `None` means that the search was over
    /// already; the session is then left as it is.
    pub fn step(&mut self, outcome: ExecutionOutcome) -> (r: Option<Step>)
        ensures
            old(self)@.wf(),
            final(self)@.wf(),
            old(self)@.stage is Finished ==> r is None && final(self)@ == old(self)@,
            old(self)@.stage !is Finished ==> r is Some && (Move {
                state: final(self)@,
                notices: r->0.notices@,
                command: r->0.command,
            }) == advance(old(self)@, outcome),
    {
        proof {
            use_type_invariant(&*self);
        }
        let plan = self.state.plan;
        let done = self.state.done;
        let mut taken = State { plan, done, best: None, stage: Stage::Finished };
        std::mem::swap(&mut self.state, &mut taken);
        let State { plan, done, best, stage } = taken;
        let (state, step) = match stage {
            Stage::Generating => on_generator(State { plan, done, best, stage }, outcome),
            Stage::Reference { input } => on_reference(
                State { plan, done, best, stage: Stage::Finished },
                input,
                outcome,
            ),
            Stage::Candidate { input, expected, index, all_ok } => on_candidate(
                State { plan, done, best, stage: Stage::Finished },
                input,
                expected,
                index,
                all_ok,
                outcome,
            ),
            Stage::Checking { input, against, index, all_ok, output, duration } => on_checker(
                State { plan, done, best, stage: Stage::Finished },
                input,
                against,
                index,
                all_ok,
                output,
                duration,
                outcome,
            ),
            Stage::Scoring { input } => on_scorer(
                State { plan, done, best, stage: Stage::Finished },
                input,
                outcome,
            ),
            Stage::Finished => {
                self.state = State { plan, done, best, stage };
                return None;
            },
        };
        self.state = state;
        Some(step)
    }

    /// The number of the iteration under way, counted from 1; once the
    /// search is over, the number that the next one would have had.
    pub fn iteration(&self) -> (i: i64)
        ensures
            i == if self@.done < i64::MAX {
                self@.done + 1
            } else {
                self@.done as int
            },
    {
        if self.state.done < i64::MAX {
            self.state.done + 1
        } else {
            self.state.done
        }
    }

    /// The iterations that have been completed and counted.
    pub fn completed(&self) -> (n: i64)
        ensures
            n == self@.done,
            0 <= n,
    {
        proof {
            use_type_invariant(self);
        }
        self.state.done
    }

    /// The score of the best counterexample kept so far.
    pub fn best_score(&self) -> (score: Option<i64>)
        ensures
            score == match self@.best {
                Some(kept) => Some(kept.1),
                None => None,
            },
    {
        match &self.state.best {
            Some(kept) => Some(kept.1),
            None => None,
        }
    }

    /// Whether the search is over.
    pub fn is_finished(&self) -> (over: bool)
        ensures
            over == (self@.stage is Finished),
    {
        match &self.state.stage {
            Stage::Finished => true,
            _ => false,
        }
    }
}

} // verus!
