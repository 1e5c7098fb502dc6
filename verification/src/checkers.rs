//! Deciding whether a candidate's output agrees with the expected output.

use crate::error::Error;
use crate::runner::ExecutionOutcome;
use crate::runner::FailureReason;
use crate::strres::StrRes;
use vstd::prelude::*;

verus! {

/// The bytes that separate tokens: space, tab, line feed, vertical tab, form
/// feed and carriage return.
pub open spec fn is_space(b: u8) -> bool {
    b == 0x20 || (0x09 <= b && b <= 0x0d)
}

/// The length of the longest prefix of `s` that holds no separator.
pub open spec fn run_len(s: Seq<u8>) -> nat
    decreases s.len(),
{
    if s.len() == 0 || is_space(s[0]) {
        0
    } else {
        1 + run_len(s.drop_first())
    }
}

/// `run_len` stays inside the text, covers only bytes that are no
/// separators, and stops at a separator or at the end.
pub proof fn lemma_run_len(s: Seq<u8>)
    ensures
        run_len(s) <= s.len(),
        forall|i: int| 0 <= i < run_len(s) ==> !is_space(#[trigger] s[i]),
        run_len(s) < s.len() ==> is_space(s[run_len(s) as int]),
    decreases s.len(),
{
    if s.len() != 0 && !is_space(s[0]) {
        let rest = s.drop_first();
        lemma_run_len(rest);
        assert forall|i: int| 0 <= i < run_len(s) implies !is_space(#[trigger] s[i]) by {
            if i > 0 {
                assert(s[i] == rest[i - 1]);
            }
        }
        if run_len(s) < s.len() {
            assert(s[run_len(s) as int] == rest[run_len(rest) as int]);
        }
    }
}

/// The tokens of `s`: its maximal runs of bytes that are no separators, in
/// the order in which they stand.
pub open spec fn tokens(s: Seq<u8>) -> Seq<Seq<u8>>
    decreases s.len(),
{
    if s.len() == 0 {
        Seq::empty()
    } else if is_space(s[0]) {
        tokens(s.drop_first())
    } else {
        proof {
            lemma_run_len(s);
        }
        let n = run_len(s) as int;
        seq![s.take(n)] + tokens(s.skip(n))
    }
}

/// Two texts agree when they hold the same tokens in the same order.
pub open spec fn token_equal(a: Seq<u8>, b: Seq<u8>) -> bool {
    tokens(a) == tokens(b)
}

/// Whether every byte of `s` is a separator.
pub open spec fn all_space(s: Seq<u8>) -> bool {
    forall|i: int| 0 <= i < s.len() ==> is_space(#[trigger] s[i])
}

/// Whether no token can reach from the end of `a` into the start of `b`:
/// one of them is empty, or a separator stands on either side of the seam.
pub open spec fn breaks_between(a: Seq<u8>, b: Seq<u8>) -> bool {
    a.len() == 0 || b.len() == 0 || is_space(a.last()) || is_space(b[0])
}

proof fn lemma_run_len_concat(a: Seq<u8>, b: Seq<u8>)
    requires
        a.len() > 0,
        breaks_between(a, b),
    ensures
        run_len(a + b) == run_len(a),
    decreases a.len(),
{
    assert((a + b)[0] == a[0]);
    if !is_space(a[0]) {
        let rest = a.drop_first();
        assert((a + b).drop_first() =~= rest + b);
        if rest.len() == 0 {
            assert(rest + b =~= b);
            assert(a.last() == a[0]);
            assert(run_len(rest) == 0);
            assert(run_len(b) == 0);
        } else {
            assert(rest.last() == a.last());
            lemma_run_len_concat(rest, b);
        }
    }
}

/// Where no token reaches across the seam, the tokens of two texts joined
/// are the tokens of the first followed by the tokens of the second.
pub proof fn lemma_tokens_concat(a: Seq<u8>, b: Seq<u8>)
    requires
        breaks_between(a, b),
    ensures
        tokens(a + b) == tokens(a) + tokens(b),
    decreases a.len(),
{
    if a.len() == 0 {
        assert(a + b =~= b);
        assert(tokens(a) + tokens(b) =~= tokens(b));
    } else {
        assert((a + b)[0] == a[0]);
        if is_space(a[0]) {
            let rest = a.drop_first();
            assert((a + b).drop_first() =~= rest + b);
            if rest.len() > 0 {
                assert(rest.last() == a.last());
            }
            lemma_tokens_concat(rest, b);
        } else {
            lemma_run_len(a);
            lemma_run_len_concat(a, b);
            let n = run_len(a) as int;
            let rest = a.skip(n);
            assert((a + b).take(n) =~= a.take(n));
            assert((a + b).skip(n) =~= rest + b);
            if rest.len() > 0 {
                assert(rest.last() == a.last());
            }
            lemma_tokens_concat(rest, b);
            assert(seq![a.take(n)] + (tokens(rest) + tokens(b)) =~= (seq![a.take(n)] + tokens(
                rest,
            )) + tokens(b));
        }
    }
}

/// Text made of separators alone holds no token.
pub proof fn lemma_tokens_of_spaces(ws: Seq<u8>)
    requires
        all_space(ws),
    ensures
        tokens(ws) == Seq::<Seq<u8>>::empty(),
    decreases ws.len(),
{
    if ws.len() > 0 {
        let rest = ws.drop_first();
        assert forall|i: int| 0 <= i < rest.len() implies is_space(#[trigger] rest[i]) by {
            assert(rest[i] == ws[i + 1]);
        }
        lemma_tokens_of_spaces(rest);
    }
}

/// Separators put in front of a text leave its tokens as they are.
pub proof fn lemma_leading_space(ws: Seq<u8>, s: Seq<u8>)
    requires
        all_space(ws),
    ensures
        token_equal(ws + s, s),
{
    lemma_tokens_of_spaces(ws);
    lemma_tokens_concat(ws, s);
    assert(tokens(ws) + tokens(s) =~= tokens(s));
}

/// Separators put behind a text leave its tokens as they are.
pub proof fn lemma_trailing_space(s: Seq<u8>, ws: Seq<u8>)
    requires
        all_space(ws),
    ensures
        token_equal(s + ws, s),
{
    lemma_tokens_of_spaces(ws);
    lemma_tokens_concat(s, ws);
    assert(tokens(s) + tokens(ws) =~= tokens(s));
}

/// Which separators part two pieces of text, and how many of them, does not
/// matter: a line break may stand where a space stood.
pub proof fn lemma_separator_choice(a: Seq<u8>, ws1: Seq<u8>, ws2: Seq<u8>, b: Seq<u8>)
    requires
        all_space(ws1),
        all_space(ws2),
        ws1.len() > 0,
        ws2.len() > 0,
    ensures
        token_equal(a + ws1 + b, a + ws2 + b),
        tokens(a + ws1 + b) == tokens(a) + tokens(b),
{
    lemma_tokens_of_spaces(ws1);
    lemma_tokens_of_spaces(ws2);
    lemma_tokens_concat(a, ws1);
    lemma_tokens_concat(a, ws2);
    assert((a + ws1).last() == ws1.last());
    assert((a + ws2).last() == ws2.last());
    lemma_tokens_concat(a + ws1, b);
    lemma_tokens_concat(a + ws2, b);
    assert(tokens(a) + tokens(ws1) =~= tokens(a));
    assert(tokens(a) + tokens(ws2) =~= tokens(a));
}


/// The view of each vector of `v`, in order.
pub open spec fn views(v: Seq<Vec<u8>>) -> Seq<Seq<u8>> {
    Seq::new(v.len(), |i: int| v[i]@)
}

/// Whether `b` separates tokens.
pub fn is_whitespace(b: u8) -> (r: bool)
    ensures
        r == is_space(b),
{
    b == 0x20 || (0x09 <= b && b <= 0x0d)
}

/// Splits `text` into its tokens.
pub fn split_tokens(text: &[u8]) -> (out: Vec<Vec<u8>>)
    ensures
        views(out@) == tokens(text@),
{
    let mut out: Vec<Vec<u8>> = Vec::new();
    let mut i: usize = 0;
    assert(text@.skip(0) =~= text@);
    assert(views(out@) =~= Seq::<Seq<u8>>::empty());
    while i < text.len()
        invariant
            i <= text.len(),
            views(out@) + tokens(text@.skip(i as int)) == tokens(text@),
        decreases text.len() - i,
    {
        let ghost rest = text@.skip(i as int);
        if is_whitespace(text[i]) {
            assert(rest.drop_first() =~= text@.skip(i + 1));
            i += 1;
        } else {
            let mut token: Vec<u8> = Vec::new();
            let mut j: usize = i;
            while j < text.len() && !is_whitespace(text[j])
                invariant
                    i <= j <= text.len(),
                    rest == text@.skip(i as int),
                    token@ == text@.subrange(i as int, j as int),
                    run_len(rest) == (j - i) + run_len(text@.skip(j as int)),
                decreases text.len() - j,
            {
                assert(text@.skip(j as int).drop_first() =~= text@.skip(j + 1));
                token.push(text[j]);
                j += 1;
            }
            proof {
                let n = (j - i) as int;
                assert(run_len(rest) == n);
                assert(rest.take(n) =~= token@);
                assert(rest.skip(n) =~= text@.skip(j as int));
                assert(views(out@.push(token)) =~= views(out@).push(token@));
                assert(views(out@).push(token@) + tokens(text@.skip(j as int)) =~= views(out@) + (
                seq![token@] + tokens(text@.skip(j as int))));
            }
            out.push(token);
            i = j;
        }
    }
    assert(text@.skip(i as int).len() == 0);
    assert(views(out@) + Seq::<Seq<u8>>::empty() =~= views(out@));
    out
}

/// Whether two byte strings are the same.
fn same_bytes(a: &Vec<u8>, b: &Vec<u8>) -> (r: bool)
    ensures
        r == (a@ == b@),
{
    if a.len() != b.len() {
        return false;
    }
    let mut i: usize = 0;
    while i < a.len()
        invariant
            i <= a.len(),
            a.len() == b.len(),
            forall|k: int| 0 <= k < i ==> a@[k] == b@[k],
        decreases a.len() - i,
    {
        if a[i] != b[i] {
            return false;
        }
        i += 1;
    }
    assert(a@ =~= b@);
    true
}

/// The built-in check: whether `output` and `expected` hold the same tokens
/// in the same order. Where separators stand, and how many, plays no part.
pub fn tokens_match(output: &[u8], expected: &[u8]) -> (r: bool)
    ensures
        r == token_equal(output@, expected@),
{
    let ours = split_tokens(output);
    let theirs = split_tokens(expected);
    if ours.len() != theirs.len() {
        assert(views(ours@).len() != views(theirs@).len());
        return false;
    }
    let mut i: usize = 0;
    while i < ours.len()
        invariant
            i <= ours.len(),
            ours.len() == theirs.len(),
            views(ours@) == tokens(output@),
            views(theirs@) == tokens(expected@),
            forall|k: int| 0 <= k < i ==> ours@[k]@ == theirs@[k]@,
        decreases ours.len() - i,
    {
        if !same_bytes(&ours[i], &theirs[i]) {
            assert(views(ours@)[i as int] == ours@[i as int]@);
            assert(views(theirs@)[i as int] == theirs@[i as int]@);
            return false;
        }
        i += 1;
    }
    assert(views(ours@) =~= views(theirs@));
    true
}

/// How outputs are judged.
#[derive(Clone, Copy, Debug, PartialEq, Eq, Structural)]
pub enum Checker {
    /// The built-in check: the same tokens in the same order.
    Tokens,
    /// A program of the user's, for problems with more than one right
    /// answer. It is run outside this library; exit code 0 means accept.
    External,
}

impl Checker {
    /// What the checker says of `output` against `expected`, where it can
    /// say so by itself: `None` means that the external program has to be
    /// asked. The built-in check does not look at `input`.
    pub open spec fn spec_check(self, input: Seq<u8>, output: Seq<u8>, expected: Seq<u8>) -> Option<
        bool,
    > {
        match self {
            Checker::Tokens => Some(token_equal(output, expected)),
            Checker::External => None,
        }
    }

    /// Judges `output` against `expected` for the test `input`, or says with
    /// `None` that the external program has to be asked.
    pub fn check(&self, input: &StrRes, output: &StrRes, expected: &StrRes) -> (r: Option<bool>)
        ensures
            r == self.spec_check(input@, output@, expected@),
    {
        match self {
            Checker::Tokens => Some(tokens_match(output.as_slice(), expected.as_slice())),
            Checker::External => None,
        }
    }
}

/// What a run of the external checker says: accept if it exited with code
/// 0, reject if it exited otherwise or ran out of time, and an error if it
/// could not be started at all.
pub open spec fn external_verdict(run: ExecutionOutcome) -> Result<bool, Error> {
    match run {
        ExecutionOutcome::Completed { .. } => Ok(true),
        ExecutionOutcome::Failed { reason, .. } => if reason == FailureReason::SpawnError {
            Err(Error::CheckerInvocationFailure)
        } else {
            Ok(false)
        },
    }
}

/// Reads the verdict off a run of the external checker.
pub fn verdict_of_run(run: &ExecutionOutcome) -> (r: Result<bool, Error>)
    ensures
        r == external_verdict(*run),
{
    match run {
        ExecutionOutcome::Completed { .. } => Ok(true),
        ExecutionOutcome::Failed { reason, .. } => match reason {
            FailureReason::SpawnError => Err(Error::CheckerInvocationFailure),
            _ => Ok(false),
        },
    }
}

} // verus!
