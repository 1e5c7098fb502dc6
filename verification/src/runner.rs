//! What one run of an executable came to.

use crate::strres::StrRes;
use vstd::prelude::*;

verus! {

/// Why a run gave no output.
#[derive(Clone, Copy, Debug, PartialEq, Eq, Structural)]
pub enum FailureReason {
    /// The time limit ran out and the process was killed.
    Timeout,
    /// The process ended by itself, but not with exit code 0.
    NonZeroExit,
    /// The process could not be started.
    SpawnError,
}

/// The outcome of one run. The duration, in nanoseconds from start to exit
/// or kill, is recorded on both sides.
#[derive(Debug, PartialEq, Eq)]
pub enum ExecutionOutcome {
    Completed { output: StrRes, duration: u64 },
    Failed { reason: FailureReason, duration: u64 },
}

/// How a child process came to its end, as whoever waited for it saw it.
#[derive(Clone, Copy, Debug, PartialEq, Eq, Structural)]
pub enum ProcessEnd {
    /// The process did not start.
    NotStarted,
    /// The time limit ran out first; the process was killed.
    TimedOut,
    /// The process exited in time, with this code if it has one.
    Exited(Option<i32>),
}

impl ExecutionOutcome {
    /// The time the run took, in nanoseconds.
    pub open spec fn spec_duration(&self) -> u64 {
        match self {
            ExecutionOutcome::Completed { duration, .. } => *duration,
            ExecutionOutcome::Failed { duration, .. } => *duration,
        }
    }

    /// The time the run took, in nanoseconds.
    #[verifier::when_used_as_spec(spec_duration)]
    pub fn duration(&self) -> (d: u64)
        ensures
            d == self.spec_duration(),
    {
        match self {
            ExecutionOutcome::Completed { duration, .. } => *duration,
            ExecutionOutcome::Failed { duration, .. } => *duration,
        }
    }

    /// Why the run failed, if it did.
    pub open spec fn spec_failure(&self) -> Option<FailureReason> {
        match self {
            ExecutionOutcome::Completed { .. } => None,
            ExecutionOutcome::Failed { reason, .. } => Some(*reason),
        }
    }

    /// Why the run failed, if it did.
    #[verifier::when_used_as_spec(spec_failure)]
    pub fn failure(&self) -> (r: Option<FailureReason>)
        ensures
            r == self.spec_failure(),
    {
        match self {
            ExecutionOutcome::Completed { .. } => None,
            ExecutionOutcome::Failed { reason, .. } => Some(*reason),
        }
    }
}

/// The reason for which a process that ended as `end` counts as failed, or
/// `None` if it succeeded: it has to exit in time and with code 0.
pub open spec fn failure_of(end: ProcessEnd) -> Option<FailureReason> {
    match end {
        ProcessEnd::NotStarted => Some(FailureReason::SpawnError),
        ProcessEnd::TimedOut => Some(FailureReason::Timeout),
        ProcessEnd::Exited(Some(code)) => if code == 0 {
            None
        } else {
            Some(FailureReason::NonZeroExit)
        },
        ProcessEnd::Exited(None) => Some(FailureReason::NonZeroExit),
    }
}

/// Sums up one run: how the process ended, what it wrote to its standard
/// output, and the nanoseconds that passed. A run that succeeded keeps its
/// output; a failed one keeps the reason. The duration is kept either way.
pub fn conclude(end: ProcessEnd, stdout: Vec<u8>, elapsed: u64) -> (r: ExecutionOutcome)
    ensures
        r.duration() == elapsed,
        r.failure() == failure_of(end),
        r matches ExecutionOutcome::Completed { output, .. } ==> output@ == stdout@ && output
            is InMemory,
{
    let failure = match end {
        ProcessEnd::NotStarted => Some(FailureReason::SpawnError),
        ProcessEnd::TimedOut => Some(FailureReason::Timeout),
        ProcessEnd::Exited(Some(code)) => if code == 0 {
            None
        } else {
            Some(FailureReason::NonZeroExit)
        },
        ProcessEnd::Exited(None) => Some(FailureReason::NonZeroExit),
    };
    match failure {
        None => ExecutionOutcome::Completed { output: StrRes::from_bytes(stdout), duration: elapsed },
        Some(reason) => ExecutionOutcome::Failed { reason, duration: elapsed },
    }
}

} // verus!
