//! What a judge reports about a submission while it is being judged.

use vstd::prelude::*;

verus! {

/// Where the compilation of a submission stands.
#[derive(Clone, Copy, Debug, PartialEq, Eq, Structural)]
pub enum Compilation {
    Pending,
    Success,
    Failure,
}

/// Where one group of tests stands.
#[derive(Clone, Copy, Debug, PartialEq, Eq, Structural)]
pub enum Outcome {
    Score(i64),
    Failure,
    Success,
    Pending,
    Unsupported,
    Skipped,
    Waiting,
}

/// The state of a submission, part by part.
#[derive(Clone, Copy, Debug, PartialEq, Eq, Structural)]
pub struct Status {
    pub compilation: Compilation,
    pub initial: Outcome,
    pub full: Outcome,
}

/// How the example tests went.
#[derive(Clone, Copy, Debug, PartialEq, Eq, Structural)]
pub enum Examples {
    OK,
    Wrong,
}

/// The state of a submission, as one of three steps.
#[derive(Clone, Copy, Debug, PartialEq, Eq, Structural)]
pub enum Progress {
    InitialPending,
    ScorePending { examples: Examples },
    ScoreReady { examples: Examples, score: i64 },
}

} // verus!
