//! What holds of every stress test: which counterexample is kept, when the
//! search ends, and how iterations are counted.

use crate::commands::multitest::advance;
use crate::commands::multitest::close_round;
use crate::commands::multitest::limit;
use crate::commands::multitest::next_round;
use crate::commands::multitest::opening;
use crate::commands::multitest::retain;
use crate::commands::multitest::Command;
use crate::commands::multitest::Conclusion;
use crate::commands::multitest::Move;
use crate::commands::multitest::Notice;
use crate::commands::multitest::Plan;
use crate::commands::multitest::Probe;
use crate::commands::multitest::Stage;
use crate::commands::multitest::State;
use crate::error::Error;
use crate::fitness::external_score;
use crate::runner::ExecutionOutcome;
use crate::strres::StrRes;
use crate::testing::judge;
use crate::testing::settled;
use crate::testing::Evaluation;
use crate::testing::Judgement;
use crate::testing::TestResult;
use vstd::prelude::*;

verus! {

/// The record that is kept once the failing inputs `found`, each with its
/// score, have come in this order.
pub open spec fn retained(found: Seq<(StrRes, i64)>) -> Option<(StrRes, i64)>
    decreases found.len(),
{
    if found.len() == 0 {
        None
    } else {
        retain(retained(found.drop_last()), found.last().0, found.last().1)
    }
}

/// Whether `found[k]` has the greatest score of all and is the first to
/// have it.
pub open spec fn is_first_best(found: Seq<(StrRes, i64)>, k: int) -> bool {
    &&& 0 <= k < found.len()
    &&& forall|j: int| 0 <= j < found.len() ==> (#[trigger] found[j]).1 <= found[k].1
    &&& forall|j: int| 0 <= j < k ==> (#[trigger] found[j]).1 < found[k].1
}

/// Of the failing inputs that come in, the one with the greatest score is
/// kept; among several with that score, the one that came first.
pub proof fn lemma_retained_is_first_best(found: Seq<(StrRes, i64)>)
    requires
        found.len() > 0,
    ensures
        exists|k: int| is_first_best(found, k) && retained(found) == Some(found[k]),
    decreases found.len(),
{
    let before = found.drop_last();
    let last = found.len() - 1;
    if before.len() == 0 {
        assert(retained(before) is None);
        assert(is_first_best(found, 0));
    } else {
        lemma_retained_is_first_best(before);
        let k = choose|k: int| is_first_best(before, k) && retained(before) == Some(before[k]);
        assert(before[k] == found[k]);
        assert forall|j: int| 0 <= j < before.len() implies (#[trigger] found[j]).1
            <= before[k].1 by {
            assert(found[j] == before[j]);
        }
        if found[last].1 > before[k].1 {
            assert(is_first_best(found, last));
        } else {
            assert forall|j: int| 0 <= j < k implies (#[trigger] found[j]).1 < found[k].1 by {
                assert(found[j] == before[j]);
            }
            assert(is_first_best(found, k));
        }
    }
}

/// The input of the iteration that a state is in the middle of.
pub open spec fn round_input(s: State) -> Option<StrRes> {
    match s.stage {
        Stage::Generating => None,
        Stage::Reference { input } => Some(input),
        Stage::Candidate { input, .. } => Some(input),
        Stage::Checking { input, .. } => Some(input),
        Stage::Scoring { input } => Some(input),
        Stage::Finished => None,
    }
}

/// A search begins in a well-formed state, and every move keeps it so: in
/// particular no more iterations are counted than the plan allows.
pub proof fn lemma_moves_keep_wf(plan: Plan, s: State, outcome: ExecutionOutcome)
    requires
        s.wf(),
    ensures
        opening(plan).state.wf(),
        advance(s, outcome).state.wf(),
        advance(s, outcome).state.plan == s.plan,
        s.done <= advance(s, outcome).state.done <= s.done + 1,
{
}

/// Without a count the search ends at the first iteration that fails, and
/// ends with the input of that very iteration: the moment an iteration
/// closes as failed, nothing more is asked to run.
pub proof fn lemma_first_failure_ends_search(s: State, input: StrRes, notices: Seq<Notice>)
    requires
        s.plan.count is None,
    ensures
        close_round(s, input, false, notices).command == Command::Done(Conclusion::Found(input)),
        close_round(s, input, false, notices).state.stage is Finished,
        close_round(s, input, false, notices).notices == notices,
{
}

/// Without a count, whatever input the search ends with is the input of the
/// iteration that was under way, and an iteration that passes is followed by
/// the next.
pub proof fn lemma_search_without_count(s: State, outcome: ExecutionOutcome)
    requires
        s.wf(),
        s.plan.count is None,
    ensures
        advance(s, outcome).command matches Command::Done(Conclusion::Found(input))
            ==> round_input(s) == Some(input),
        advance(s, outcome).state.best is None,
        !(advance(s, outcome).command matches Command::Run { probe: Probe::Fitness, .. }),
{
}

/// An iteration that passes is counted, keeps what was kept, and scores
/// nothing. It is followed by the next iteration, or, at the limit, by the
/// end of the search.
pub proof fn lemma_passed_round(s: State, input: StrRes, notices: Seq<Notice>)
    requires
        s.wf(),
        s.stage !is Finished,
    ensures
        close_round(s, input, true, notices) == next_round(s.plan, s.done + 1, s.best, notices),
        s.done + 1 < limit(s.plan) ==> close_round(s, input, true, notices).command == (
        Command::Run { probe: Probe::Generator, input: StrRes::Empty, time_limit: None })
            && close_round(s, input, true, notices).state.done == s.done + 1 && close_round(
            s,
            input,
            true,
            notices,
        ).state.best == s.best,
{
}

/// A failure of the generator that is ignored changes nothing: the same
/// iteration number is tried again, and no iteration is counted. One that is
/// not ignored ends the search.
pub proof fn lemma_generator_failure(s: State, outcome: ExecutionOutcome)
    requires
        s.wf(),
        s.stage is Generating,
        outcome is Failed,
    ensures
        s.plan.ignore_generator_fail ==> advance(s, outcome) == (Move {
            state: s,
            notices: seq![Notice::GeneratorFail((s.done + 1) as i64)],
            command: Command::Run { probe: Probe::Generator, input: StrRes::Empty, time_limit: None },
        }),
        !s.plan.ignore_generator_fail ==> advance(s, outcome).command == Command::Done(
            Conclusion::Failed(Error::GenerationFailure),
        ) && advance(s, outcome).state.stage is Finished,
{
}

/// The score of the record that a state keeps.
pub open spec fn kept_score(s: State) -> Option<i64> {
    match s.best {
        Some(kept) => Some(kept.1),
        None => None,
    }
}

/// The input of the record that a state keeps.
pub open spec fn kept_input(s: State) -> Option<StrRes> {
    match s.best {
        Some(kept) => Some(kept.0),
        None => None,
    }
}

/// What is kept never gets worse while the search goes on: the score does
/// not drop, on equal scores the earlier record stays, and a record that
/// takes its place holds the input of the iteration that just failed.
pub proof fn lemma_kept_record_only_improves(s: State, outcome: ExecutionOutcome)
    requires
        s.wf(),
        s.best is Some,
        advance(s, outcome).state.stage !is Finished,
    ensures
        advance(s, outcome).state.best is Some,
        kept_score(advance(s, outcome).state)->0 >= kept_score(s)->0,
        kept_score(advance(s, outcome).state) == kept_score(s) ==> advance(s, outcome).state.best
            == s.best,
        advance(s, outcome).state.best != s.best ==> round_input(s) == kept_input(
            advance(s, outcome).state,
        ),
{
}

/// The time limit of the plan goes to the reference and to every candidate,
/// and to nothing else; the generator reads the empty input.
pub proof fn lemma_what_is_run(s: State, outcome: ExecutionOutcome)
    requires
        s.wf(),
        s.stage !is Finished,
    ensures
        match advance(s, outcome).command {
            Command::Run { probe, input, time_limit } => match probe {
                Probe::Generator => input == StrRes::Empty && time_limit is None,
                Probe::Reference => time_limit == s.plan.time_limit && s.stage is Generating,
                Probe::Candidate(index) => time_limit == s.plan.time_limit && index
                    < s.plan.candidates && round_input(s) == Some(input),
                Probe::Fitness => time_limit is None && round_input(s) == Some(input)
                    && s.plan.fitness is External && s.plan.count is Some,
            },
            Command::Check { candidate, input, .. } => candidate < s.plan.candidates
                && round_input(s) == Some(input) && s.plan.checker is External,
            Command::Done(_) => advance(s, outcome).state.stage is Finished,
        },
{
}

/// The state that a search reaches from `s` when the runs it asks for come
/// to `outcomes`, one after the other.
pub open spec fn state_after(s: State, outcomes: Seq<ExecutionOutcome>) -> State
    decreases outcomes.len(),
{
    if outcomes.len() == 0 {
        s
    } else {
        advance(state_after(s, outcomes.drop_last()), outcomes.last()).state
    }
}

/// How many of `outcomes` are runs of the generator that completed, when
/// the search stands at `s` before the first of them.
pub open spec fn generated(s: State, outcomes: Seq<ExecutionOutcome>) -> nat
    decreases outcomes.len(),
{
    if outcomes.len() == 0 {
        0
    } else {
        let before = outcomes.drop_last();
        let here: nat = if state_after(s, before).stage is Generating && outcomes.last() is Completed {
            1
        } else {
            0
        };
        generated(s, before) + here
    }
}

/// 1 in the middle of an iteration, 0 between iterations and at the end.
pub open spec fn mid_round(s: State) -> int {
    if round_input(s) is Some {
        1
    } else {
        0
    }
}

/// A search that is over stays over, whatever comes in.
pub proof fn lemma_finished_is_final(s: State, outcomes: Seq<ExecutionOutcome>)
    requires
        s.stage is Finished,
    ensures
        state_after(s, outcomes) == s,
    decreases outcomes.len(),
{
    if outcomes.len() > 0 {
        lemma_finished_is_final(s, outcomes.drop_last());
    }
}

/// Iterations are counted by the inputs that the generator made, never by
/// its failures: while the search goes on, the iterations counted, and the
/// one under way, are exactly the runs of the generator that completed. A
/// search that has ended has counted no more than those.
pub proof fn lemma_counted_iterations(s: State, outcomes: Seq<ExecutionOutcome>)
    requires
        s.wf(),
    ensures
        state_after(s, outcomes).wf(),
        state_after(s, outcomes).plan == s.plan,
        state_after(s, outcomes).done + mid_round(state_after(s, outcomes)) <= s.done + mid_round(s) + generated(
            s,
            outcomes,
        ),
        state_after(s, outcomes).stage !is Finished ==> state_after(s, outcomes).done + mid_round(
            state_after(s, outcomes),
        ) == s.done + mid_round(s) + generated(s, outcomes),
    decreases outcomes.len(),
{
    if outcomes.len() > 0 {
        let before = outcomes.drop_last();
        lemma_counted_iterations(s, before);
        let at = state_after(s, before);
        let next = advance(at, outcomes.last()).state;
        assert(next.wf());
        assert(next.stage !is Finished ==> at.stage !is Finished);
    }
}

/// The record that comes up for keeping when an iteration closes with
/// `all_ok`: none if it passed or no count was given, else the input with
/// the score that the built-in ranking gives it, if that ranking is used.
pub open spec fn closing_score(s: State, input: StrRes, all_ok: bool) -> Option<(StrRes, i64)> {
    if !all_ok && s.plan.count is Some {
        match s.plan.fitness.spec_fitness(input@) {
            Some(score) => Some((input, score)),
            None => None,
        }
    } else {
        None
    }
}

/// The record that comes up for keeping once the candidate `index` has been
/// judged: none unless it was the last one.
pub open spec fn verdict_score(
    s: State,
    input: StrRes,
    index: usize,
    all_ok: bool,
    evaluation: Evaluation,
) -> Option<(StrRes, i64)> {
    if index + 1 < s.plan.candidates {
        None
    } else {
        closing_score(s, input, all_ok && evaluation.verdict == TestResult::Accept)
    }
}

/// The failing input that the move from `s` on `outcome` scores, together
/// with its score: where a count was given, the input of an iteration that
/// closes as failed, scored by the built-in ranking at once or by the
/// external scorer when its run comes in.
pub open spec fn scored_by(s: State, outcome: ExecutionOutcome) -> Option<(StrRes, i64)> {
    match s.stage {
        Stage::Reference { input } => if 0 < s.plan.candidates {
            None
        } else {
            closing_score(s, input, outcome is Completed)
        },
        Stage::Candidate { input, expected, index, all_ok } => match judge(
            outcome,
            expected,
            s.plan.checker,
        ) {
            Judgement::Settled(evaluation) => verdict_score(s, input, index, all_ok, evaluation),
            Judgement::AskChecker { .. } => None,
        },
        Stage::Checking { input, against, index, all_ok, output, duration } => match settled(
            output,
            duration,
            outcome,
        ) {
            Ok(evaluation) => verdict_score(s, input, index, all_ok, evaluation),
            Err(_) => None,
        },
        Stage::Scoring { input } => match external_score(outcome) {
            Ok(score) => Some((input, score)),
            Err(_) => None,
        },
        _ => None,
    }
}

/// The record that is kept after the move from `s` on `outcome`, by the
/// rule of `retain`.
pub open spec fn kept_after(s: State, outcome: ExecutionOutcome) -> Option<(StrRes, i64)> {
    match scored_by(s, outcome) {
        Some(record) => retain(s.best, record.0, record.1),
        None => s.best,
    }
}

/// Every move keeps the record that `retain` picks. Where a count was
/// given and the move ends the search for want of iterations, the search
/// ends with the input of that record, or with nothing if there is none.
pub proof fn lemma_move_keeps_by_rule(s: State, outcome: ExecutionOutcome)
    requires
        s.wf(),
        s.stage !is Finished,
    ensures
        advance(s, outcome).state.stage !is Finished ==> advance(s, outcome).state.best
            == kept_after(s, outcome),
        scored_by(s, outcome) matches Some(record) ==> round_input(s) == Some(record.0),
        s.plan.count is Some ==> (advance(s, outcome).command matches Command::Done(
            Conclusion::Found(input),
        ) ==> (kept_after(s, outcome) matches Some(kept) && kept.0 == input)),
        advance(s, outcome).command == Command::Done(Conclusion::NotFound) ==> kept_after(
            s,
            outcome,
        ) is None,
{
}

/// The failing inputs that a search scores, each with its score, in the
/// order in which they are scored, when the runs it asks for from `s` on
/// come to `outcomes`.
pub open spec fn scored(s: State, outcomes: Seq<ExecutionOutcome>) -> Seq<(StrRes, i64)>
    decreases outcomes.len(),
{
    if outcomes.len() == 0 {
        Seq::empty()
    } else {
        let before = outcomes.drop_last();
        match scored_by(state_after(s, before), outcomes.last()) {
            Some(record) => scored(s, before).push(record),
            None => scored(s, before),
        }
    }
}

/// While a search goes on, what it keeps is the best of all the failing
/// inputs it has scored since it began, and the first of them among equals.
pub proof fn lemma_kept_is_best_scored(plan: Plan, outcomes: Seq<ExecutionOutcome>)
    requires
        state_after(opening(plan).state, outcomes).stage !is Finished,
    ensures
        state_after(opening(plan).state, outcomes).best == retained(
            scored(opening(plan).state, outcomes),
        ),
    decreases outcomes.len(),
{
    let s = opening(plan).state;
    if outcomes.len() > 0 {
        let before = outcomes.drop_last();
        let at = state_after(s, before);
        lemma_counted_iterations(s, before);
        if at.stage is Finished {
            assert(advance(at, outcomes.last()).state == at);
        }
        lemma_kept_is_best_scored(plan, before);
        lemma_move_keeps_by_rule(at, outcomes.last());
        match scored_by(at, outcomes.last()) {
            Some(record) => {
                let found = scored(s, before).push(record);
                assert(found.drop_last() =~= scored(s, before));
                assert(found.last() == record);
            },
            None => {},
        }
    }
}

/// Where a count was given, a search that ends for want of iterations ends
/// with the best of all the failing inputs it has scored, the first among
/// equals, and with nothing only if it has scored none.
pub proof fn lemma_search_ends_with_best(
    plan: Plan,
    outcomes: Seq<ExecutionOutcome>,
    last: ExecutionOutcome,
)
    requires
        plan.count is Some,
        state_after(opening(plan).state, outcomes).stage !is Finished,
    ensures
        advance(state_after(opening(plan).state, outcomes), last).command matches Command::Done(
            Conclusion::Found(input),
        ) ==> exists|k: int|
            is_first_best(scored(opening(plan).state, outcomes.push(last)), k) && scored(
                opening(plan).state,
                outcomes.push(last),
            )[k].0 == input,
        advance(state_after(opening(plan).state, outcomes), last).command == Command::Done(
            Conclusion::NotFound,
        ) ==> scored(opening(plan).state, outcomes.push(last)).len() == 0,
{
    let s = opening(plan).state;
    let at = state_after(s, outcomes);
    let all = outcomes.push(last);
    let found = scored(s, all);
    assert(all.drop_last() =~= outcomes);
    assert(all.last() == last);
    lemma_counted_iterations(s, outcomes);
    lemma_kept_is_best_scored(plan, outcomes);
    lemma_move_keeps_by_rule(at, last);
    assert(kept_after(at, last) == retained(found)) by {
        match scored_by(at, last) {
            Some(record) => {
                assert(found == scored(s, outcomes).push(record));
                assert(found.drop_last() =~= scored(s, outcomes));
                assert(found.last() == record);
            },
            None => {},
        }
    }
    if found.len() > 0 {
        lemma_retained_is_first_best(found);
    }
}

} // verus!
