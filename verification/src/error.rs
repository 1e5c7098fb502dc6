//! The errors that end a whole invocation.

use vstd::prelude::*;
use vstd::string::StringExecFns;

verus! {

/// An error that nothing further can be done about.
#[derive(Clone, Debug, PartialEq, Eq)]
pub enum Error {
    /// The test generator failed, and its failures are not to be ignored.
    GenerationFailure,
    /// A configured executable could not be started.
    SpawnError,
    /// The external checker could not be consulted.
    CheckerInvocationFailure,
    /// The external scorer failed, or did not print a number.
    FitnessFailure,
    /// Both an optimised and a profiling build were asked for.
    ConflictingBuildModes,
    /// No known judge site serves this domain.
    UnsupportedProblemSite(String),
}

impl Error {
    /// What went wrong, in words.
    pub fn to_string(&self) -> (text: String)
        ensures
            text@ == self.message(),
    {
        match self {
            Error::GenerationFailure => "failed to run test generator".to_owned(),
            Error::SpawnError => "failed to start an executable".to_owned(),
            Error::CheckerInvocationFailure => "failed to run the checker".to_owned(),
            Error::FitnessFailure => "failed to compute fitness".to_owned(),
            Error::ConflictingBuildModes => "both --release and --profile specified".to_owned(),
            Error::UnsupportedProblemSite(domain) => {
                let mut text = "unsupported problem site: ".to_owned();
                text.append(domain.as_str());
                text
            },
        }
    }

    /// What went wrong, in words.
    pub open spec fn message(&self) -> Seq<char> {
        match self {
            Error::GenerationFailure => "failed to run test generator"@,
            Error::SpawnError => "failed to start an executable"@,
            Error::CheckerInvocationFailure => "failed to run the checker"@,
            Error::FitnessFailure => "failed to compute fitness"@,
            Error::ConflictingBuildModes => "both --release and --profile specified"@,
            Error::UnsupportedProblemSite(domain) => "unsupported problem site: "@ + domain@,
        }
    }
}

} // verus!
