use multitest::checkers::is_whitespace;
use multitest::checkers::split_tokens;
use multitest::checkers::tokens_match;
use multitest::checkers::verdict_of_run;
use multitest::checkers::Checker;
use multitest::error::Error;
use multitest::runner::ExecutionOutcome;
use multitest::runner::FailureReason;
use multitest::strres::StrRes;

fn res(text: &str) -> StrRes {
    StrRes::from_bytes(text.as_bytes().to_vec())
}

#[test]
fn whitespace_is_the_six_ascii_separators() {
    for b in 0u8..=255 {
        let expected = b == b' ' || b == b'\t' || b == b'\n' || b == 0x0b || b == 0x0c || b == b'\r';
        assert_eq!(is_whitespace(b), expected, "byte {}", b);
    }
}

#[test]
fn split_tokens_takes_maximal_runs() {
    let tokens = split_tokens(b"  12 abc\n\n x\t");
    assert_eq!(tokens, vec![b"12".to_vec(), b"abc".to_vec(), b"x".to_vec()]);
}

#[test]
fn split_tokens_of_nothing_is_empty() {
    assert_eq!(split_tokens(b""), Vec::<Vec<u8>>::new());
    assert_eq!(split_tokens(b" \n\t\r"), Vec::<Vec<u8>>::new());
}

#[test]
fn split_tokens_keeps_a_single_token_whole() {
    assert_eq!(split_tokens(b"hello"), vec![b"hello".to_vec()]);
}

#[test]
fn tokens_match_ignores_where_separators_stand() {
    assert!(tokens_match(b"1 2 3", b"1\n2\n3\n"));
    assert!(tokens_match(b"  1 2 3", b"1 2 3  "));
    assert!(tokens_match(b"1\t\t2", b"1 2"));
    assert!(tokens_match(b"", b"\n"));
}

#[test]
fn tokens_match_sees_content_and_order() {
    assert!(!tokens_match(b"1 2 3", b"1 3 2"));
    assert!(!tokens_match(b"10", b"11"));
    assert!(!tokens_match(b"1 2", b"12"));
    assert!(!tokens_match(b"1 2", b"1 2 3"));
    assert!(!tokens_match(b"1 2 3", b"1 2"));
    assert!(!tokens_match(b"", b"0"));
}

#[test]
fn builtin_checker_compares_tokens() {
    let input = res("5");
    assert_eq!(Checker::Tokens.check(&input, &res("10\n"), &res(" 10")), Some(true));
    assert_eq!(Checker::Tokens.check(&input, &res("11"), &res("10")), Some(false));
    assert_eq!(Checker::Tokens.check(&input, &StrRes::Empty, &res("  ")), Some(true));
}

#[test]
fn external_checker_has_to_be_asked() {
    let input = res("5");
    assert_eq!(Checker::External.check(&input, &res("10"), &res("10")), None);
}

#[test]
fn checker_run_exit_zero_accepts() {
    let run = ExecutionOutcome::Completed { output: StrRes::Empty, duration: 7 };
    assert_eq!(verdict_of_run(&run), Ok(true));
}

#[test]
fn checker_run_failure_rejects() {
    let crashed = ExecutionOutcome::Failed { reason: FailureReason::NonZeroExit, duration: 7 };
    let slow = ExecutionOutcome::Failed { reason: FailureReason::Timeout, duration: 7 };
    assert_eq!(verdict_of_run(&crashed), Ok(false));
    assert_eq!(verdict_of_run(&slow), Ok(false));
}

#[test]
fn checker_that_cannot_start_is_an_error() {
    let run = ExecutionOutcome::Failed { reason: FailureReason::SpawnError, duration: 0 };
    assert_eq!(verdict_of_run(&run), Err(Error::CheckerInvocationFailure));
}
