//! Choosing how a solution is compiled.

use crate::error::Error;
use vstd::prelude::*;

verus! {

/// The kinds of build.
#[derive(Clone, Copy, Debug, PartialEq, Eq, Structural)]
pub enum Codegen {
    Debug,
    Release,
    Profile,
}

/// The build that the two switches ask for; they exclude each other.
pub open spec fn chosen(release: bool, profile: bool) -> Result<Codegen, Error> {
    if release && profile {
        Err(Error::ConflictingBuildModes)
    } else if release {
        Ok(Codegen::Release)
    } else if profile {
        Ok(Codegen::Profile)
    } else {
        Ok(Codegen::Debug)
    }
}

impl Codegen {
    /// Picks the build for the switches given on the command line.
    pub fn select(release: bool, profile: bool) -> (r: Result<Codegen, Error>)
        ensures
            r == chosen(release, profile),
    {
        match (release, profile) {
            (false, false) => Ok(Codegen::Debug),
            (true, false) => Ok(Codegen::Release),
            (false, true) => Ok(Codegen::Profile),
            (true, true) => Err(Error::ConflictingBuildModes),
        }
    }
}

} // verus!
