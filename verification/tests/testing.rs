use colored::Color;
use colored::Styles;
use multitest::checkers::Checker;
use multitest::error::Error;
use multitest::paint::Paint;
use multitest::runner::ExecutionOutcome;
use multitest::runner::FailureReason;
use multitest::strres::StrRes;
use multitest::testing::settle;
use multitest::testing::test_single;
use multitest::testing::Evaluation;
use multitest::testing::Judgement;
use multitest::testing::TestResult;

fn text(s: &str) -> StrRes {
    StrRes::from_bytes(s.as_bytes().to_vec())
}

fn ran(s: &str, nanos: u64) -> ExecutionOutcome {
    ExecutionOutcome::Completed { output: text(s), duration: nanos }
}

#[test]
fn token_equal_output_is_accepted() {
    let expected = text("10\n");
    let judged = test_single(ran("  10", 5), &text("5"), Some(&expected), Checker::Tokens);
    assert_eq!(
        judged,
        Judgement::Settled(Evaluation {
            verdict: TestResult::Accept,
            output: Some(text("  10")),
            duration: 5,
            failure: None,
        })
    );
}

#[test]
fn different_output_is_a_wrong_answer() {
    let expected = text("10");
    let judged = test_single(ran("11", 6), &text("5"), Some(&expected), Checker::Tokens);
    assert_eq!(
        judged,
        Judgement::Settled(Evaluation {
            verdict: TestResult::WrongAnswer,
            output: Some(text("11")),
            duration: 6,
            failure: None,
        })
    );
}

#[test]
fn timeout_is_a_runtime_error_with_its_duration() {
    let expected = text("10");
    let outcome = ExecutionOutcome::Failed { reason: FailureReason::Timeout, duration: 1_000_400_000 };
    let judged = test_single(outcome, &text("5"), Some(&expected), Checker::Tokens);
    assert_eq!(
        judged,
        Judgement::Settled(Evaluation {
            verdict: TestResult::RuntimeError,
            output: None,
            duration: 1_000_400_000,
            failure: Some(FailureReason::Timeout),
        })
    );
}

#[test]
fn crash_is_a_runtime_error() {
    let expected = text("10");
    let outcome = ExecutionOutcome::Failed { reason: FailureReason::NonZeroExit, duration: 9 };
    let judged = test_single(outcome, &text("5"), Some(&expected), Checker::External);
    assert_eq!(
        judged,
        Judgement::Settled(Evaluation {
            verdict: TestResult::RuntimeError,
            output: None,
            duration: 9,
            failure: Some(FailureReason::NonZeroExit),
        })
    );
}

#[test]
fn nothing_is_judged_without_expected_output() {
    let judged = test_single(ran("10", 4), &text("5"), None, Checker::Tokens);
    assert_eq!(
        judged,
        Judgement::Settled(Evaluation {
            verdict: TestResult::IgnoredNoOut,
            output: Some(text("10")),
            duration: 4,
            failure: None,
        })
    );
    let failed = ExecutionOutcome::Failed { reason: FailureReason::Timeout, duration: 8 };
    let judged = test_single(failed, &text("5"), None, Checker::External);
    assert_eq!(
        judged,
        Judgement::Settled(Evaluation {
            verdict: TestResult::IgnoredNoOut,
            output: None,
            duration: 8,
            failure: Some(FailureReason::Timeout),
        })
    );
}

#[test]
fn external_checker_is_asked_about_completed_runs() {
    let expected = text("10");
    let judged = test_single(ran("10", 4), &text("5"), Some(&expected), Checker::External);
    assert_eq!(judged, Judgement::AskChecker { output: text("10"), duration: 4 });
}

#[test]
fn settle_follows_the_checker() {
    let accepted = settle(text("1"), 11, &ran("", 2));
    assert_eq!(
        accepted,
        Ok(Evaluation { verdict: TestResult::Accept, output: Some(text("1")), duration: 11, failure: None })
    );
    let rejected = settle(
        text("1"),
        11,
        &ExecutionOutcome::Failed { reason: FailureReason::NonZeroExit, duration: 2 },
    );
    assert_eq!(
        rejected,
        Ok(Evaluation {
            verdict: TestResult::WrongAnswer,
            output: Some(text("1")),
            duration: 11,
            failure: None,
        })
    );
}

#[test]
fn settle_fails_when_the_checker_cannot_start() {
    let broken = settle(
        text("1"),
        11,
        &ExecutionOutcome::Failed { reason: FailureReason::SpawnError, duration: 0 },
    );
    assert_eq!(broken, Err(Error::CheckerInvocationFailure));
}

#[test]
fn verdicts_have_their_colours() {
    assert_eq!(TestResult::Accept.paint(), Paint::Green);
    assert_eq!(TestResult::WrongAnswer.paint(), Paint::Red);
    assert_eq!(TestResult::RuntimeError.paint(), Paint::Red);
    assert_eq!(TestResult::IgnoredNoOut.paint(), Paint::Yellow);
}

#[test]
fn format_long_is_the_padded_label_in_bold_colour() {
    let accept = TestResult::Accept.format_long();
    assert_eq!(accept.input, "ACCEPT       ");
    assert_eq!(accept.fgcolor, Some(Color::Green));
    assert_eq!(accept.bgcolor, None);
    assert!(accept.style.contains(Styles::Bold));

    let wrong = TestResult::WrongAnswer.format_long();
    assert_eq!(wrong.input, "WRONG ANSWER ");
    assert_eq!(wrong.fgcolor, Some(Color::Red));
    assert!(wrong.style.contains(Styles::Bold));

    let error = TestResult::RuntimeError.format_long();
    assert_eq!(error.input, "RUNTIME ERROR");
    assert_eq!(error.fgcolor, Some(Color::Red));
    assert!(error.style.contains(Styles::Bold));

    let ignored = TestResult::IgnoredNoOut.format_long();
    assert_eq!(ignored.input, "IGNORED      ");
    assert_eq!(ignored.fgcolor, Some(Color::Yellow));
    assert!(ignored.style.contains(Styles::Bold));
}

#[test]
fn apply_color_keeps_the_text_and_sets_colour_and_weight() {
    let shown = TestResult::Accept.apply_color("0.12s");
    assert_eq!(shown.input, "0.12s");
    assert_eq!(shown.fgcolor, Some(Color::Green));
    assert!(shown.style.contains(Styles::Bold));
    assert!(!shown.style.contains(Styles::Italic));
    assert!(!shown.style.contains(Styles::Underline));

    let red = TestResult::RuntimeError.apply_color("1.00s");
    assert_eq!(red.input, "1.00s");
    assert_eq!(red.fgcolor, Some(Color::Red));
    assert!(red.style.contains(Styles::Bold));

    let yellow = TestResult::IgnoredNoOut.apply_color("");
    assert_eq!(yellow.input, "");
    assert_eq!(yellow.fgcolor, Some(Color::Yellow));
    assert!(yellow.style.contains(Styles::Bold));
}
