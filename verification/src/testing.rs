//! Classifying one run of an executable on one input.

use crate::checkers::external_verdict;
use crate::checkers::token_equal;
use crate::checkers::verdict_of_run;
use crate::checkers::Checker;
use crate::error::Error;
use crate::paint::bold;
use crate::paint::color;
use crate::paint::look;
use crate::paint::Look;
use crate::paint::Paint;
use crate::runner::ExecutionOutcome;
use crate::runner::FailureReason;
use crate::strres::StrRes;
use colored::ColoredString;
use vstd::prelude::*;

verus! {

/// The outcome of judging one run.
#[derive(Clone, Copy, Debug, PartialEq, Eq, Structural)]
pub enum TestResult {
    /// The checker accepted the output.
    Accept,
    /// The run completed, and the checker rejected its output.
    WrongAnswer,
    /// The run timed out, exited with a failure, or could not start.
    RuntimeError,
    /// There was no expected output to judge against.
    IgnoredNoOut,
}

impl TestResult {
    /// The verdict in capitals, padded with spaces to thirteen characters.
    pub open spec fn label(&self) -> Seq<char> {
        match self {
            TestResult::Accept => "ACCEPT       "@,
            TestResult::WrongAnswer => "WRONG ANSWER "@,
            TestResult::RuntimeError => "RUNTIME ERROR"@,
            TestResult::IgnoredNoOut => "IGNORED      "@,
        }
    }

    /// The colour in which the verdict is shown: green for success, red for
    /// a wrong answer or a failed run, yellow where nothing was judged.
    pub open spec fn spec_paint(&self) -> Paint {
        match self {
            TestResult::Accept => Paint::Green,
            TestResult::WrongAnswer => Paint::Red,
            TestResult::RuntimeError => Paint::Red,
            TestResult::IgnoredNoOut => Paint::Yellow,
        }
    }

    /// The colour in which the verdict is shown.
    #[verifier::when_used_as_spec(spec_paint)]
    pub fn paint(&self) -> (p: Paint)
        ensures
            p == self.spec_paint(),
    {
        match self {
            TestResult::Accept => Paint::Green,
            TestResult::WrongAnswer => Paint::Red,
            TestResult::RuntimeError => Paint::Red,
            TestResult::IgnoredNoOut => Paint::Yellow,
        }
    }

    /// The verdict's label, bold and in the verdict's colour.
    pub fn format_long(&self) -> (r: ColoredString)
        ensures
            look(r) == (Look { text: self.label(), color: Some(self.paint()), bold: true }),
    {
        self.apply_color(
            match self {
                TestResult::Accept => "ACCEPT       ",
                TestResult::WrongAnswer => "WRONG ANSWER ",
                TestResult::RuntimeError => "RUNTIME ERROR",
                TestResult::IgnoredNoOut => "IGNORED      ",
            },
        )
    }

    /// The text `s`, bold and in the verdict's colour.
    pub fn apply_color(&self, s: &str) -> (r: ColoredString)
        ensures
            look(r) == (Look { text: s@, color: Some(self.paint()), bold: true }),
    {
        bold(color(s, self.paint()))
    }
}

/// What is known of a run once it has been judged.
#[derive(Debug, PartialEq, Eq)]
pub struct Evaluation {
    pub verdict: TestResult,
    /// What the run wrote, if it completed.
    pub output: Option<StrRes>,
    /// The nanoseconds the run took.
    pub duration: u64,
    /// Why the run failed, if it did.
    pub failure: Option<FailureReason>,
}

/// What follows from a run: the evaluation, or the need to ask the external
/// checker about the output first.
#[derive(Debug, PartialEq, Eq)]
pub enum Judgement {
    Settled(Evaluation),
    AskChecker { output: StrRes, duration: u64 },
}

/// The verdict on a run, given the expected output if there is one.
///
/// Without an expected output nothing is judged, whatever the run did. A
/// failed run is a runtime error. A completed run is accepted or rejected by
/// the checker; the external checker has to be asked outside.
pub open spec fn judge(
    outcome: ExecutionOutcome,
    perfect_output: Option<StrRes>,
    checker: Checker,
) -> Judgement {
    match outcome {
        ExecutionOutcome::Failed { reason, duration } => Judgement::Settled(
            Evaluation {
                verdict: if perfect_output is None {
                    TestResult::IgnoredNoOut
                } else {
                    TestResult::RuntimeError
                },
                output: None,
                duration,
                failure: Some(reason),
            },
        ),
        ExecutionOutcome::Completed { output, duration } => match perfect_output {
            None => Judgement::Settled(
                Evaluation {
                    verdict: TestResult::IgnoredNoOut,
                    output: Some(output),
                    duration,
                    failure: None,
                },
            ),
            Some(expected) => match checker {
                Checker::Tokens => Judgement::Settled(
                    Evaluation {
                        verdict: if token_equal(output@, expected@) {
                            TestResult::Accept
                        } else {
                            TestResult::WrongAnswer
                        },
                        output: Some(output),
                        duration,
                        failure: None,
                    },
                ),
                Checker::External => Judgement::AskChecker { output, duration },
            },
        },
    }
}

/// Judges one run of an executable on `input`, of which `outcome` is what
/// the run came to, against `perfect_output`.
pub fn test_single(
    outcome: ExecutionOutcome,
    input: &StrRes,
    perfect_output: Option<&StrRes>,
    checker: Checker,
) -> (r: Judgement)
    ensures
        r == judge(
            outcome,
            match perfect_output {
                Some(expected) => Some(*expected),
                None => None,
            },
            checker,
        ),
{
    match outcome {
        ExecutionOutcome::Failed { reason, duration } => {
            let verdict = if perfect_output.is_none() {
                TestResult::IgnoredNoOut
            } else {
                TestResult::RuntimeError
            };
            Judgement::Settled(Evaluation { verdict, output: None, duration, failure: Some(reason) })
        },
        ExecutionOutcome::Completed { output, duration } => match perfect_output {
            None => Judgement::Settled(
                Evaluation {
                    verdict: TestResult::IgnoredNoOut,
                    output: Some(output),
                    duration,
                    failure: None,
                },
            ),
            Some(expected) => match checker.check(input, &output, expected) {
                Some(accepted) => {
                    let verdict = if accepted {
                        TestResult::Accept
                    } else {
                        TestResult::WrongAnswer
                    };
                    Judgement::Settled(
                        Evaluation { verdict, output: Some(output), duration, failure: None },
                    )
                },
                None => Judgement::AskChecker { output, duration },
            },
        },
    }
}

/// The evaluation of a completed run once the external checker has run on
/// its output: accepted if the checker accepted, a wrong answer if it did
/// not, and an error if the checker could not be started.
pub open spec fn settled(output: StrRes, duration: u64, checker_run: ExecutionOutcome) -> Result<
    Evaluation,
    Error,
> {
    match external_verdict(checker_run) {
        Ok(accepted) => Ok(
            Evaluation {
                verdict: if accepted {
                    TestResult::Accept
                } else {
                    TestResult::WrongAnswer
                },
                output: Some(output),
                duration,
                failure: None,
            },
        ),
        Err(e) => Err(e),
    }
}

/// Completes the judgement of a run whose `output` went to the external
/// checker, of which `checker_run` is what that run came to.
pub fn settle(output: StrRes, duration: u64, checker_run: &ExecutionOutcome) -> (r: Result<
    Evaluation,
    Error,
>)
    ensures
        r == settled(output, duration, *checker_run),
{
    match verdict_of_run(checker_run) {
        Ok(accepted) => {
            let verdict = if accepted {
                TestResult::Accept
            } else {
                TestResult::WrongAnswer
            };
            Ok(Evaluation { verdict, output: Some(output), duration, failure: None })
        },
        Err(e) => Err(e),
    }
}

/// A candidate that completes with the same tokens as the expected output is
/// accepted by the built-in check, whatever else the two outputs differ in.
pub proof fn lemma_token_equal_accepts(
    output: StrRes,
    duration: u64,
    expected: StrRes,
)
    requires
        token_equal(output@, expected@),
    ensures
        judge(
            ExecutionOutcome::Completed { output, duration },
            Some(expected),
            Checker::Tokens,
        ) matches Judgement::Settled(e) && e.verdict == TestResult::Accept && e.duration
            == duration,
{
}

/// A run that ran out of time is a runtime error wherever there is an
/// expected output, and the time it took is reported as it was measured.
pub proof fn lemma_timeout_is_runtime_error(duration: u64, expected: StrRes, checker: Checker)
    ensures
        judge(
            ExecutionOutcome::Failed { reason: FailureReason::Timeout, duration },
            Some(expected),
            checker,
        ) matches Judgement::Settled(e) && e.verdict == TestResult::RuntimeError && e.duration
            == duration && e.failure == Some(FailureReason::Timeout),
{
}

} // verus!
