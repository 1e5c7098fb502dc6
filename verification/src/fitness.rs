//! Scoring counterexamples, so that the most interesting one can be kept.

use crate::checkers::split_tokens;
use crate::checkers::tokens;
use crate::checkers::views;
use crate::error::Error;
use crate::runner::ExecutionOutcome;
use crate::strres::StrRes;
use vstd::prelude::*;

verus! {

/// Whether `b` is one of the characters `0` to `9`.
pub open spec fn is_digit(b: u8) -> bool {
    0x30 <= b && b <= 0x39
}

/// Whether `s` is made of digits alone.
pub open spec fn all_digits(s: Seq<u8>) -> bool {
    forall|i: int| 0 <= i < s.len() ==> is_digit(#[trigger] s[i])
}

/// The number that the digits `s` spell in base ten; 0 for no digits.
pub open spec fn decimal_value(s: Seq<u8>) -> int
    decreases s.len(),
{
    if s.len() == 0 {
        0
    } else {
        decimal_value(s.drop_last()) * 10 + (s.last() - 0x30)
    }
}

/// The digits of a numeral: the numeral without its sign, if it has one.
pub open spec fn digits_of(t: Seq<u8>) -> Seq<u8> {
    if t.len() > 0 && (t[0] == 0x2d || t[0] == 0x2b) {
        t.drop_first()
    } else {
        t
    }
}

/// The integer that `t` spells: an optional `+` or `-`, then one or more
/// digits, and nothing else. `None` where `t` is not of that form.
pub open spec fn number(t: Seq<u8>) -> Option<int> {
    let digits = digits_of(t);
    if digits.len() == 0 || !all_digits(digits) {
        None
    } else if t[0] == 0x2d {
        Some(-decimal_value(digits))
    } else {
        Some(decimal_value(digits))
    }
}

/// The score that a scorer's output states: the output has to hold exactly
/// one token, which has to spell an integer that fits in 64 bits.
pub open spec fn score_of(text: Seq<u8>) -> Option<i64> {
    let found = tokens(text);
    if found.len() == 1 {
        match number(found[0]) {
            Some(v) => if i64::MIN <= v <= i64::MAX {
                Some(v as i64)
            } else {
                None
            },
            None => None,
        }
    } else {
        None
    }
}

/// A numeral's value does not shrink when digits are added behind it.
proof fn lemma_decimal_value_grows(s: Seq<u8>, k: int)
    requires
        all_digits(s),
        0 <= k <= s.len(),
    ensures
        0 <= decimal_value(s.take(k)) <= decimal_value(s),
    decreases s.len() - k,
{
    if k == s.len() {
        assert(s.take(k) =~= s);
        lemma_decimal_value_nonnegative(s);
    } else {
        lemma_decimal_value_grows(s, k + 1);
        let longer = s.take(k + 1);
        assert(longer.drop_last() =~= s.take(k));
        assert(longer.last() == s[k]);
        assert(is_digit(s[k]));
        assert forall|i: int| 0 <= i < s.take(k).len() implies is_digit(
            #[trigger] s.take(k)[i],
        ) by {
            assert(s.take(k)[i] == s[i]);
        }
        lemma_decimal_value_nonnegative(s.take(k));
    }
}

proof fn lemma_decimal_value_nonnegative(s: Seq<u8>)
    requires
        all_digits(s),
    ensures
        0 <= decimal_value(s),
    decreases s.len(),
{
    if s.len() > 0 {
        let shorter = s.drop_last();
        assert forall|i: int| 0 <= i < shorter.len() implies is_digit(#[trigger] shorter[i]) by {
            assert(shorter[i] == s[i]);
        }
        lemma_decimal_value_nonnegative(shorter);
        assert(is_digit(s.last()));
    }
}

/// Reads the integer that `t` spells, if it spells one that fits in 64 bits.
pub fn parse_number(t: &[u8]) -> (r: Option<i64>)
    ensures
        r == match number(t@) {
            Some(v) => if i64::MIN <= v <= i64::MAX {
                Some(v as i64)
            } else {
                None
            },
            None => None,
        },
{
    let negative = t.len() > 0 && t[0] == 0x2d;
    let start: usize = if t.len() > 0 && (t[0] == 0x2d || t[0] == 0x2b) {
        1
    } else {
        0
    };
    let ghost digits = digits_of(t@);
    assert(digits =~= t@.skip(start as int));
    if start == t.len() {
        return None;
    }
    let bound: u128 = 0x8000_0000_0000_0000;
    let mut acc: u128 = 0;
    let mut i: usize = start;
    assert(digits.take(0) =~= Seq::<u8>::empty());
    while i < t.len()
        invariant
            start <= i <= t.len(),
            start < t.len(),
            digits == t@.skip(start as int),
            digits == digits_of(t@),
            negative == (t@[0] == 0x2d),
            bound == 0x8000_0000_0000_0000,
            acc <= bound,
            acc == decimal_value(digits.take(i - start)),
            forall|k: int| 0 <= k < i - start ==> is_digit(#[trigger] digits[k]),
        decreases t.len() - i,
    {
        let b = t[i];
        assert(digits[i - start] == b);
        if !(0x30 <= b && b <= 0x39) {
            return None;
        }
        let ghost longer = digits.take(i - start + 1);
        assert(longer.drop_last() =~= digits.take(i - start));
        assert(longer.last() == b);
        let next: u128 = acc * 10 + (b - 0x30) as u128;
        assert(next == decimal_value(longer));
        if next > bound {
            proof {
                if all_digits(digits) {
                    lemma_decimal_value_grows(digits, i - start + 1);
                }
            }
            return None;
        }
        acc = next;
        i += 1;
    }
    assert(digits.take(i - start) =~= digits);
    if negative {
        let v: i128 = -(acc as i128);
        Some(v as i64)
    } else if acc < bound {
        Some(acc as i64)
    } else {
        None
    }
}

/// Reads the score off a scorer's output.
pub fn parse_score(text: &[u8]) -> (r: Option<i64>)
    ensures
        r == score_of(text@),
{
    let found = split_tokens(text);
    if found.len() == 1 {
        assert(views(found@)[0] == found@[0]@);
        parse_number(found[0].as_slice())
    } else {
        None
    }
}

/// How failing inputs are ranked.
#[derive(Clone, Copy, Debug, PartialEq, Eq, Structural)]
pub enum Fitness {
    /// Every failing input scores the same, so the first one found is kept.
    Constant,
    /// A program of the user's reads the input and prints its score. It is
    /// run outside this library.
    External,
}

/// The score that the built-in ranking gives to every input.
pub const CONSTANT_SCORE: i64 = 0;

impl Fitness {
    /// The score of `input` where the ranking can tell by itself; `None`
    /// means that the external program has to be asked.
    pub open spec fn spec_fitness(self, input: Seq<u8>) -> Option<i64> {
        match self {
            Fitness::Constant => Some(CONSTANT_SCORE),
            Fitness::External => None,
        }
    }

    /// Scores a failing input, or says with `None` that the external
    /// program has to be asked.
    pub fn fitness(&self, input: &StrRes) -> (r: Option<i64>)
        ensures
            r == self.spec_fitness(input@),
    {
        match self {
            Fitness::Constant => Some(CONSTANT_SCORE),
            Fitness::External => None,
        }
    }
}

/// The score that a run of the external scorer gives: the number it printed,
/// if it completed and printed one.
pub open spec fn external_score(run: ExecutionOutcome) -> Result<i64, Error> {
    match run {
        ExecutionOutcome::Completed { output, .. } => match score_of(output@) {
            Some(score) => Ok(score),
            None => Err(Error::FitnessFailure),
        },
        ExecutionOutcome::Failed { .. } => Err(Error::FitnessFailure),
    }
}

/// Reads the score off a run of the external scorer.
pub fn score_of_run(run: &ExecutionOutcome) -> (r: Result<i64, Error>)
    ensures
        r == external_score(*run),
{
    match run {
        ExecutionOutcome::Completed { output, .. } => match parse_score(output.as_slice()) {
            Some(score) => Ok(score),
            None => Err(Error::FitnessFailure),
        },
        ExecutionOutcome::Failed { .. } => Err(Error::FitnessFailure),
    }
}

} // verus!
