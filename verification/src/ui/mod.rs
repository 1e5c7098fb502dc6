//! What the tool says, before it is printed.

pub mod human;
pub mod json;

use crate::util::digits;
use crate::util::push_digits;
use crate::util::push_two_digits;
use crate::util::two_digits;
use vstd::prelude::*;
use vstd::string::StringExecFns;

verus! {

/// A duration in seconds, cut off after two decimal places, with `s` behind.
pub open spec fn time_text(nanos: u64) -> Seq<char> {
    let hundredths = (nanos / 10_000_000) as nat;
    digits(hundredths / 100) + seq!['.'] + two_digits(hundredths % 100) + seq!['s']
}

/// Writes a duration, given in nanoseconds, as seconds with two decimals.
pub fn timefmt(nanos: u64) -> (text: String)
    ensures
        text@ == time_text(nanos),
{
    let hundredths: u64 = nanos / 10_000_000;
    let mut text = String::new();
    proof {
        reveal_strlit(".");
        reveal_strlit("s");
    }
    push_digits(&mut text, hundredths / 100);
    text.append(".");
    push_two_digits(&mut text, hundredths % 100);
    text.append("s");
    assert(text@ =~= time_text(nanos));
    text
}

} // verus!
