use multitest::commands::codegen::Codegen;
use multitest::commands::init::acquire_tests;
use multitest::commands::init::example_files;
use multitest::commands::init::ExampleFile;
use multitest::commands::init::Site;
use multitest::commands::init::Test;
use multitest::commands::tracksubmit::Compilation;
use multitest::commands::tracksubmit::Examples;
use multitest::commands::tracksubmit::Outcome;
use multitest::commands::tracksubmit::Progress;
use multitest::commands::tracksubmit::Status;
use multitest::error::Error;
use multitest::paint::Paint;
use multitest::strres::StrRes;
use multitest::testing::TestResult;
use multitest::ui::human::color_testr;
use multitest::ui::human::fmt_full;
use multitest::ui::human::fmt_initial;
use multitest::ui::human::fmt_test_long;
use multitest::ui::human::progress_message;
use multitest::ui::json::AuthRequest;
use multitest::ui::json::Json;
use multitest::ui::json::SingleTest;
use multitest::ui::json::SubmitResult;
use multitest::ui::json::TrackProgress;
use multitest::ui::json::TrackStatus;
use multitest::ui::timefmt;
use multitest::util::decimal_string;
use multitest::util::push_digits;
use multitest::util::push_two_digits;

struct FirstSite;

impl Site for FirstSite {
    fn download_tests(url: &str) -> Vec<Test> {
        vec![Test { input: format!("first {}", url), output: "1".to_string() }]
    }
}

struct SecondSite;

impl Site for SecondSite {
    fn download_tests(url: &str) -> Vec<Test> {
        vec![Test { input: format!("second {}", url), output: "2".to_string() }]
    }
}

#[test]
fn decimal_string_writes_base_ten() {
    assert_eq!(decimal_string(0), "0");
    assert_eq!(decimal_string(7), "7");
    assert_eq!(decimal_string(10), "10");
    assert_eq!(decimal_string(1234567890), "1234567890");
    assert_eq!(decimal_string(-1), "-1");
    assert_eq!(decimal_string(-905), "-905");
    assert_eq!(decimal_string(i64::MAX), "9223372036854775807");
    assert_eq!(decimal_string(i64::MIN), "-9223372036854775808");
}

#[test]
fn push_digits_appends() {
    let mut text = "n=".to_string();
    push_digits(&mut text, 0);
    push_digits(&mut text, 42);
    push_digits(&mut text, u64::MAX);
    assert_eq!(text, "n=04218446744073709551615");
    let mut padded = String::new();
    push_two_digits(&mut padded, 0);
    push_two_digits(&mut padded, 7);
    push_two_digits(&mut padded, 10);
    push_two_digits(&mut padded, 123);
    assert_eq!(padded, "000710123");
}

#[test]
fn timefmt_cuts_to_hundredths_of_a_second() {
    assert_eq!(timefmt(0), "0.00s");
    assert_eq!(timefmt(9_999_999), "0.00s");
    assert_eq!(timefmt(10_000_000), "0.01s");
    assert_eq!(timefmt(1_000_000_000), "1.00s");
    assert_eq!(timefmt(1_234_567_890), "1.23s");
    assert_eq!(timefmt(75_050_000_000), "75.05s");
    assert_eq!(timefmt(u64::MAX), "18446744073.70s");
}

#[test]
fn initial_tests_are_worded() {
    assert_eq!(fmt_initial(&Outcome::Score(40)), "Initial tests scored 40. ");
    assert_eq!(fmt_initial(&Outcome::Score(-1)), "Initial tests scored -1. ");
    assert_eq!(fmt_initial(&Outcome::Failure), "Initial tests failed. ");
    assert_eq!(fmt_initial(&Outcome::Success), "Initial tests passed. ");
    assert_eq!(fmt_initial(&Outcome::Unsupported), "");
    assert_eq!(fmt_initial(&Outcome::Skipped), "");
}

#[test]
fn final_results_are_worded() {
    assert_eq!(fmt_full(&Outcome::Score(100)), "Scored 100!");
    assert_eq!(fmt_full(&Outcome::Failure), "Rejected");
    assert_eq!(fmt_full(&Outcome::Success), "Accepted");
}

#[test]
fn verdict_labels_are_thirteen_wide() {
    assert_eq!(fmt_test_long(&TestResult::Accept), "ACCEPT       ");
    assert_eq!(fmt_test_long(&TestResult::WrongAnswer), "WRONG ANSWER ");
    assert_eq!(fmt_test_long(&TestResult::RuntimeError), "RUNTIME ERROR");
    assert_eq!(fmt_test_long(&TestResult::IgnoredNoOut), "IGNORED      ");
    assert_eq!(color_testr(&TestResult::Accept), Paint::Green);
    assert_eq!(color_testr(&TestResult::WrongAnswer), Paint::Red);
    assert_eq!(color_testr(&TestResult::RuntimeError), Paint::Red);
    assert_eq!(color_testr(&TestResult::IgnoredNoOut), Paint::Yellow);
}

#[test]
fn progress_names_the_first_step_not_through() {
    let status = |compilation, initial, full| Status { compilation, initial, full };
    assert_eq!(
        progress_message(&status(Compilation::Pending, Outcome::Waiting, Outcome::Waiting)),
        "Compilation pending..."
    );
    assert_eq!(
        progress_message(&status(Compilation::Failure, Outcome::Skipped, Outcome::Skipped)),
        "Compilation error"
    );
    assert_eq!(
        progress_message(&status(Compilation::Success, Outcome::Pending, Outcome::Waiting)),
        "Initial tests pending..."
    );
    assert_eq!(
        progress_message(&status(Compilation::Success, Outcome::Success, Outcome::Pending)),
        "Initial tests passed. Score pending..."
    );
    assert_eq!(
        progress_message(&status(Compilation::Success, Outcome::Score(30), Outcome::Pending)),
        "Initial tests scored 30. Score pending..."
    );
    assert_eq!(
        progress_message(&status(Compilation::Success, Outcome::Unsupported, Outcome::Pending)),
        "Score pending..."
    );
    assert_eq!(
        progress_message(&status(Compilation::Success, Outcome::Success, Outcome::Score(100))),
        "Scored 100!"
    );
    assert_eq!(
        progress_message(&status(Compilation::Success, Outcome::Failure, Outcome::Failure)),
        "Rejected"
    );
}

#[test]
fn json_progress_records() {
    let ui = Json::new();
    assert_eq!(ui, Json);
    assert_eq!(
        ui.track_progress(&Progress::InitialPending),
        TrackProgress { status: TrackStatus::InitialPending, examples_succeded: None, score: None }
    );
    assert_eq!(
        ui.track_progress(&Progress::ScorePending { examples: Examples::OK }),
        TrackProgress { status: TrackStatus::ScorePending, examples_succeded: Some(true), score: None }
    );
    assert_eq!(
        ui.track_progress(&Progress::ScoreReady { examples: Examples::Wrong, score: 55 }),
        TrackProgress { status: TrackStatus::ScoreReady, examples_succeded: Some(false), score: Some(55) }
    );
}

#[test]
fn json_other_records() {
    let ui = Json::new();
    assert_eq!(ui.read_auth("codeforces.com"), AuthRequest { domain: "codeforces.com".to_string() });
    assert_eq!(ui.submit_success("1234".to_string()), SubmitResult { id: "1234".to_string() });
    assert_eq!(
        ui.print_test(
            &TestResult::WrongAnswer,
            Some(12),
            "tests/1.in",
            Some(StrRes::from_bytes(b"out".to_vec()))
        ),
        SingleTest {
            outcome: TestResult::WrongAnswer,
            timing: Some(12),
            in_path: "tests/1.in".to_string(),
            output: Some(b"out".to_vec()),
        }
    );
    assert_eq!(
        ui.print_test(&TestResult::IgnoredNoOut, None, "x", None),
        SingleTest { outcome: TestResult::IgnoredNoOut, timing: None, in_path: "x".to_string(), output: None }
    );
}

#[test]
fn example_files_are_numbered_from_one() {
    let tests = vec![
        Test { input: "1 2\n".to_string(), output: "3\n".to_string() },
        Test { input: "5 5\n".to_string(), output: "10\n".to_string() },
    ];
    let files = example_files(&tests);
    let file = |path: &str, content: &str| ExampleFile { path: path.to_string(), content: content.to_string() };
    assert_eq!(
        files,
        vec![
            file("./tests/example/1.in", "1 2\n"),
            file("./tests/example/1.out", "3\n"),
            file("./tests/example/2.in", "5 5\n"),
            file("./tests/example/2.out", "10\n"),
        ]
    );
    assert_eq!(example_files(&Vec::new()), Vec::<ExampleFile>::new());
}

#[test]
fn example_files_go_past_nine() {
    let tests: Vec<Test> =
        (0..11).map(|i| Test { input: format!("{}", i), output: String::new() }).collect();
    let files = example_files(&tests);
    assert_eq!(files.len(), 22);
    assert_eq!(files[18].path, "./tests/example/10.in");
    assert_eq!(files[21].path, "./tests/example/11.out");
    assert_eq!(files[20].content, "10");
}

#[test]
fn tests_come_from_the_site_of_the_domain() {
    let first = acquire_tests::<FirstSite, SecondSite>("u1", "codeforces.com").unwrap();
    assert_eq!(first, vec![Test { input: "first u1".to_string(), output: "1".to_string() }]);
    let second = acquire_tests::<FirstSite, SecondSite>("u2", "sio2.staszic.waw.pl").unwrap();
    assert_eq!(second, vec![Test { input: "second u2".to_string(), output: "2".to_string() }]);
}

#[test]
fn unknown_domain_is_an_error_that_names_it() {
    let refused = acquire_tests::<FirstSite, SecondSite>("u", "example.org");
    assert_eq!(refused, Err(Error::UnsupportedProblemSite("example.org".to_string())));
    assert_eq!(refused.unwrap_err().to_string(), "unsupported problem site: example.org");
    let near = acquire_tests::<FirstSite, SecondSite>("u", "codeforces.com.");
    assert_eq!(near, Err(Error::UnsupportedProblemSite("codeforces.com.".to_string())));
}

#[test]
fn build_switches_exclude_each_other() {
    assert_eq!(Codegen::select(false, false), Ok(Codegen::Debug));
    assert_eq!(Codegen::select(true, false), Ok(Codegen::Release));
    assert_eq!(Codegen::select(false, true), Ok(Codegen::Profile));
    assert_eq!(Codegen::select(true, true), Err(Error::ConflictingBuildModes));
}

#[test]
fn errors_have_messages() {
    assert_eq!(Error::GenerationFailure.to_string(), "failed to run test generator");
    assert_eq!(Error::SpawnError.to_string(), "failed to start an executable");
    assert_eq!(Error::CheckerInvocationFailure.to_string(), "failed to run the checker");
    assert_eq!(Error::FitnessFailure.to_string(), "failed to compute fitness");
    assert_eq!(Error::ConflictingBuildModes.to_string(), "both --release and --profile specified");
}
