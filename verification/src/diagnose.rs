//! Checks that are made once, before a long search begins.

use crate::error::Error;
use vstd::prelude::*;

verus! {

/// Whether every configured executable was found fit to run.
pub open spec fn all_usable(usable: Seq<bool>) -> bool {
    forall|i: int| 0 <= i < usable.len() ==> #[trigger] usable[i]
}

/// Decides whether a search may begin, given for each configured executable
/// whether it exists and can be executed: one that cannot is an error.
pub fn diagnose_apps(usable: &[bool]) -> (r: Result<(), Error>)
    ensures
        r is Ok <==> all_usable(usable@),
        r is Err ==> r == Err::<(), Error>(Error::SpawnError),
{
    let mut i: usize = 0;
    while i < usable.len()
        invariant
            i <= usable.len(),
            forall|k: int| 0 <= k < i ==> #[trigger] usable@[k],
        decreases usable.len() - i,
    {
        if !usable[i] {
            return Err(Error::SpawnError);
        }
        i += 1;
    }
    Ok(())
}

} // verus!
