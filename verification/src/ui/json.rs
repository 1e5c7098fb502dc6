//! The records that are shown to a program, one per line.

use crate::commands::tracksubmit::Examples;
use crate::commands::tracksubmit::Progress;
use crate::strres::StrRes;
use crate::testing::TestResult;
use vstd::prelude::*;

verus! {

/// The interface for programs: every message is a record.
#[derive(Clone, Copy, Debug, PartialEq, Eq, Structural)]
pub struct Json;

/// The request for the credentials of a judge site.
#[derive(Debug, PartialEq, Eq)]
pub struct AuthRequest {
    pub domain: String,
}

/// The record of one test that has been run.
#[derive(Debug, PartialEq, Eq)]
pub struct SingleTest {
    pub outcome: TestResult,
    /// The nanoseconds the run took, if it was timed.
    pub timing: Option<u64>,
    pub in_path: String,
    /// What the run wrote, if that is to be shown.
    pub output: Option<Vec<u8>>,
}

/// The record of a submission that went through.
#[derive(Debug, PartialEq, Eq)]
pub struct SubmitResult {
    pub id: String,
}

/// The step that a submission has reached.
#[derive(Clone, Copy, Debug, PartialEq, Eq, Structural)]
pub enum TrackStatus {
    InitialPending,
    ScorePending,
    ScoreReady,
}

/// The record of how far a submission has come.
#[derive(Clone, Copy, Debug, PartialEq, Eq, Structural)]
pub struct TrackProgress {
    pub status: TrackStatus,
    pub examples_succeded: Option<bool>,
    pub score: Option<i64>,
}

/// The record for a state of a submission: the step, whether the examples
/// passed once that is known, and the score once it is there.
pub open spec fn progress_record(status: Progress) -> TrackProgress {
    match status {
        Progress::InitialPending => TrackProgress {
            status: TrackStatus::InitialPending,
            examples_succeded: None,
            score: None,
        },
        Progress::ScorePending { examples } => TrackProgress {
            status: TrackStatus::ScorePending,
            examples_succeded: Some(examples == Examples::OK),
            score: None,
        },
        Progress::ScoreReady { examples, score } => TrackProgress {
            status: TrackStatus::ScoreReady,
            examples_succeded: Some(examples == Examples::OK),
            score: Some(score),
        },
    }
}

impl Json {
    pub fn new() -> (r: Json)
        ensures
            r == Json,
    {
        Json
    }

    /// The record that asks for the credentials of `domain`.
    pub fn read_auth(&self, domain: &str) -> (r: AuthRequest)
        ensures
            r.domain@ == domain@,
    {
        AuthRequest { domain: domain.to_owned() }
    }

    /// The record for a state of a submission.
    pub fn track_progress(&self, status: &Progress) -> (r: TrackProgress)
        ensures
            r == progress_record(*status),
    {
        match status {
            Progress::InitialPending => TrackProgress {
                status: TrackStatus::InitialPending,
                examples_succeded: None,
                score: None,
            },
            Progress::ScorePending { examples } => TrackProgress {
                status: TrackStatus::ScorePending,
                examples_succeded: Some(convert_examples(examples)),
                score: None,
            },
            Progress::ScoreReady { examples, score } => TrackProgress {
                status: TrackStatus::ScoreReady,
                examples_succeded: Some(convert_examples(examples)),
                score: Some(*score),
            },
        }
    }

    /// The record of a submission that went through under `id`.
    pub fn submit_success(&self, id: String) -> (r: SubmitResult)
        ensures
            r.id == id,
    {
        SubmitResult { id }
    }

    /// The record of one test: its verdict, the time it took, the path of
    /// its input, and what the run wrote, if that is to be shown.
    pub fn print_test(
        &self,
        outcome: &TestResult,
        timing: Option<u64>,
        in_path: &str,
        output: Option<StrRes>,
    ) -> (r: SingleTest)
        ensures
            r.outcome == *outcome,
            r.timing == timing,
            r.in_path@ == in_path@,
            match output {
                Some(shown) => r.output is Some && r.output->0@ == shown@,
                None => r.output is None,
            },
    {
        SingleTest {
            outcome: *outcome,
            timing,
            in_path: in_path.to_owned(),
            output: match output {
                Some(shown) => Some(shown.get_bytes()),
                None => None,
            },
        }
    }
}

fn convert_examples(examples: &Examples) -> (r: bool)
    ensures
        r == (*examples == Examples::OK),
{
    match examples {
        Examples::OK => true,
        Examples::Wrong => false,
    }
}

} // verus!
