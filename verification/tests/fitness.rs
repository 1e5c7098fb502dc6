use multitest::error::Error;
use multitest::fitness::parse_number;
use multitest::fitness::parse_score;
use multitest::fitness::score_of_run;
use multitest::fitness::Fitness;
use multitest::fitness::CONSTANT_SCORE;
use multitest::runner::ExecutionOutcome;
use multitest::runner::FailureReason;
use multitest::strres::StrRes;

#[test]
fn parse_number_reads_plain_digits() {
    assert_eq!(parse_number(b"0"), Some(0));
    assert_eq!(parse_number(b"7"), Some(7));
    assert_eq!(parse_number(b"1234567890"), Some(1234567890));
    assert_eq!(parse_number(b"000123"), Some(123));
}

#[test]
fn parse_number_reads_signs() {
    assert_eq!(parse_number(b"-42"), Some(-42));
    assert_eq!(parse_number(b"+42"), Some(42));
    assert_eq!(parse_number(b"-0"), Some(0));
}

#[test]
fn parse_number_reaches_both_ends_of_the_range() {
    assert_eq!(parse_number(b"9223372036854775807"), Some(i64::MAX));
    assert_eq!(parse_number(b"-9223372036854775808"), Some(i64::MIN));
    assert_eq!(parse_number(b"0000000000000000000009223372036854775807"), Some(i64::MAX));
}

#[test]
fn parse_number_refuses_what_does_not_fit() {
    assert_eq!(parse_number(b"9223372036854775808"), None);
    assert_eq!(parse_number(b"-9223372036854775809"), None);
    assert_eq!(parse_number(b"99999999999999999999999999999999999999999999"), None);
    assert_eq!(parse_number(b"-99999999999999999999999999999999999999999999"), None);
}

#[test]
fn parse_number_refuses_what_is_no_numeral() {
    assert_eq!(parse_number(b""), None);
    assert_eq!(parse_number(b"-"), None);
    assert_eq!(parse_number(b"+"), None);
    assert_eq!(parse_number(b"12a"), None);
    assert_eq!(parse_number(b"a12"), None);
    assert_eq!(parse_number(b"--1"), None);
    assert_eq!(parse_number(b"1.5"), None);
    assert_eq!(parse_number(b"1 "), None);
}

#[test]
fn parse_score_wants_exactly_one_token() {
    assert_eq!(parse_score(b"17\n"), Some(17));
    assert_eq!(parse_score(b"  -3  "), Some(-3));
    assert_eq!(parse_score(b""), None);
    assert_eq!(parse_score(b"\n"), None);
    assert_eq!(parse_score(b"1 2"), None);
    assert_eq!(parse_score(b"score"), None);
}

#[test]
fn constant_fitness_scores_everything_alike() {
    let a = StrRes::from_bytes(b"1 2 3".to_vec());
    assert_eq!(Fitness::Constant.fitness(&a), Some(CONSTANT_SCORE));
    assert_eq!(Fitness::Constant.fitness(&StrRes::Empty), Some(CONSTANT_SCORE));
    assert_eq!(CONSTANT_SCORE, 0);
}

#[test]
fn external_fitness_has_to_be_asked() {
    let a = StrRes::from_bytes(b"1 2 3".to_vec());
    assert_eq!(Fitness::External.fitness(&a), None);
}

#[test]
fn scorer_run_gives_the_number_it_printed() {
    let run = ExecutionOutcome::Completed { output: StrRes::from_bytes(b"41\n".to_vec()), duration: 3 };
    assert_eq!(score_of_run(&run), Ok(41));
}

#[test]
fn scorer_run_without_a_number_is_an_error() {
    let run = ExecutionOutcome::Completed { output: StrRes::from_bytes(b"big".to_vec()), duration: 3 };
    assert_eq!(score_of_run(&run), Err(Error::FitnessFailure));
    let silent = ExecutionOutcome::Completed { output: StrRes::Empty, duration: 3 };
    assert_eq!(score_of_run(&silent), Err(Error::FitnessFailure));
}

#[test]
fn scorer_run_that_failed_is_an_error() {
    let run = ExecutionOutcome::Failed { reason: FailureReason::NonZeroExit, duration: 3 };
    assert_eq!(score_of_run(&run), Err(Error::FitnessFailure));
}
