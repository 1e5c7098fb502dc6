//! The wording of what is shown to a person at a terminal.

use crate::commands::tracksubmit::Compilation;
use crate::commands::tracksubmit::Outcome;
use crate::commands::tracksubmit::Status;
use crate::paint::Paint;
use crate::testing::TestResult;
use crate::util::decimal;
use crate::util::decimal_string;
use vstd::prelude::*;
use vstd::string::StringExecFns;

verus! {

/// Whether there is anything to say of initial tests in this state. It is
/// never asked of tests that are pending or waiting.
pub open spec fn initial_is_reportable(outcome: Outcome) -> bool {
    outcome != Outcome::Pending && outcome != Outcome::Waiting
}

/// Whether full tests in this state have a final result to announce.
pub open spec fn full_is_reportable(outcome: Outcome) -> bool {
    outcome is Score || outcome is Failure || outcome is Success
}

/// The sentence on the initial tests, with a space behind it; nothing where
/// the judge has none or skipped them.
pub open spec fn initial_text(outcome: Outcome) -> Seq<char> {
    match outcome {
        Outcome::Score(score) => "Initial tests scored "@ + decimal(score as int) + ". "@,
        Outcome::Failure => "Initial tests failed. "@,
        Outcome::Success => "Initial tests passed. "@,
        _ => ""@,
    }
}

/// The announcement of the final result.
pub open spec fn full_text(outcome: Outcome) -> Seq<char> {
    match outcome {
        Outcome::Score(score) => "Scored "@ + decimal(score as int) + "!"@,
        Outcome::Failure => "Rejected"@,
        _ => "Accepted"@,
    }
}

/// Words the state of the initial tests.
pub fn fmt_initial(outcome: &Outcome) -> (text: String)
    requires
        initial_is_reportable(*outcome),
    ensures
        text@ == initial_text(*outcome),
{
    match outcome {
        Outcome::Score(score) => {
            let mut text = "Initial tests scored ".to_owned();
            text.append(decimal_string(*score).as_str());
            text.append(". ");
            text
        },
        Outcome::Failure => "Initial tests failed. ".to_owned(),
        Outcome::Success => "Initial tests passed. ".to_owned(),
        _ => "".to_owned(),
    }
}

/// Words the final result.
pub fn fmt_full(outcome: &Outcome) -> (text: String)
    requires
        full_is_reportable(*outcome),
    ensures
        text@ == full_text(*outcome),
{
    match outcome {
        Outcome::Score(score) => {
            let mut text = "Scored ".to_owned();
            text.append(decimal_string(*score).as_str());
            text.append("!");
            text
        },
        Outcome::Failure => "Rejected".to_owned(),
        _ => "Accepted".to_owned(),
    }
}

/// The verdict in capitals, padded to thirteen characters.
pub fn fmt_test_long(outcome: &TestResult) -> (text: &'static str)
    ensures
        text@ == outcome.label(),
{
    match outcome {
        TestResult::Accept => "ACCEPT       ",
        TestResult::WrongAnswer => "WRONG ANSWER ",
        TestResult::RuntimeError => "RUNTIME ERROR",
        TestResult::IgnoredNoOut => "IGNORED      ",
    }
}

/// The colour in which a verdict is shown.
pub fn color_testr(outcome: &TestResult) -> (paint: Paint)
    ensures
        paint == outcome.paint(),
{
    outcome.paint()
}

/// Whether the state of a submission can be put in words: whatever is
/// reached after compilation has to be reportable.
pub open spec fn is_reportable(status: Status) -> bool {
    status.compilation != Compilation::Pending && status.compilation != Compilation::Failure
        && status.initial != Outcome::Pending ==> if status.full == Outcome::Pending {
        initial_is_reportable(status.initial)
    } else {
        full_is_reportable(status.full)
    }
}

/// The line that tells how far a submission has come: the first of
/// compilation, initial tests and full tests that is not through yet, or
/// the final result.
pub open spec fn progress_text(status: Status) -> Seq<char> {
    if status.compilation == Compilation::Pending {
        "Compilation pending..."@
    } else if status.compilation == Compilation::Failure {
        "Compilation error"@
    } else if status.initial == Outcome::Pending {
        "Initial tests pending..."@
    } else if status.full == Outcome::Pending {
        initial_text(status.initial) + "Score pending..."@
    } else {
        full_text(status.full)
    }
}

/// Words the state of a submission.
pub fn progress_message(status: &Status) -> (text: String)
    requires
        is_reportable(*status),
    ensures
        text@ == progress_text(*status),
{
    match status.compilation {
        Compilation::Pending => "Compilation pending...".to_owned(),
        Compilation::Failure => "Compilation error".to_owned(),
        Compilation::Success => match status.initial {
            Outcome::Pending => "Initial tests pending...".to_owned(),
            _ => match status.full {
                Outcome::Pending => {
                    let mut text = fmt_initial(&status.initial);
                    text.append("Score pending...");
                    text
                },
                _ => fmt_full(&status.full),
            },
        },
    }
}

} // verus!
