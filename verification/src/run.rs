//! Runs: what a driver brings about. It makes each call that a step asks
//! for and resumes the session with the outcome, for as long as it has
//! outcomes to hand back.

use vstd::prelude::*;
use crate::call::{ApiCall, ApiCallView};
use crate::error::SlackError;
use crate::http::{HttpOutcome, HttpOutcomeView};
use crate::session::{result_view, Next, NextView, Receipt, ReceiptView, Skipped, SkippedView, Step, StepView};

verus! {

/// A run on record: the calls made, in order; the images left out, in order;
/// and the result, once the operation has ended.
#[derive(Clone, Debug, PartialEq, Eq)]
pub struct Run {
    pub calls: Vec<ApiCall>,
    pub skipped: Vec<Skipped>,
    pub result: Option<Result<Receipt, SlackError>>,
}

/// A run: the calls made, in order; the images left out, in order; and the
/// result, once the operation has ended.
pub struct Trace {
    pub calls: Seq<ApiCallView>,
    pub skipped: Seq<SkippedView>,
    pub result: Option<Result<ReceiptView, SlackError>>,
}

/// The image that a step left out, as a list of at most one.
pub open spec fn noted(skipped: Option<SkippedView>) -> Seq<SkippedView> {
    match skipped {
        Some(skipped) => seq![skipped],
        None => Seq::empty(),
    }
}

/// The run that starts with `step` and in which the calls have the given
/// outcomes, in order. It stops where the operation ends, and also where a
/// call was made and no outcome is left for it.
pub open spec fn play(step: StepView, outcomes: Seq<HttpOutcomeView>) -> Trace
    decreases outcomes.len(),
{
    match step.next {
        NextView::Done(result) => Trace {
            calls: Seq::empty(),
            skipped: noted(step.skipped),
            result: Some(result),
        },
        NextView::Call { session, call } => if outcomes.len() == 0 {
            Trace { calls: seq![call], skipped: noted(step.skipped), result: None }
        } else {
            play(session.resume(outcomes[0]), outcomes.drop_first()).after(
                seq![call],
                noted(step.skipped),
            )
        },
    }
}

impl Trace {
    /// The run that makes `calls` and leaves out `skipped`, and then goes on
    /// as this one.
    pub open spec fn after(self, calls: Seq<ApiCallView>, skipped: Seq<SkippedView>) -> Trace {
        Trace { calls: calls + self.calls, skipped: skipped + self.skipped, result: self.result }
    }
}

/// The views of a list of outcomes, in order.
pub open spec fn outcome_views(outcomes: Seq<HttpOutcome>) -> Seq<HttpOutcomeView> {
    outcomes.map_values(|outcome: HttpOutcome| outcome@)
}

impl View for Run {
    type V = Trace;

    open spec fn view(&self) -> Trace {
        Trace {
            calls: self.calls@.map_values(|call: ApiCall| call@),
            skipped: self.skipped@.map_values(|skipped: Skipped| skipped@),
            result: match self.result {
                Some(result) => Some(result_view(result)),
                None => None,
            },
        }
    }
}

/// Runs an operation against outcomes that are given in advance: the first
/// call gets the first outcome, and so on. No call is made.
#[verifier::loop_isolation(false)]
pub fn replay(start: Step, outcomes: Vec<HttpOutcome>) -> (run: Run)
    ensures
        run@ == play(start@, outcome_views(outcomes@)),
{
    let ghost whole = play(start@, outcome_views(outcomes@));
    let mut calls: Vec<ApiCall> = Vec::new();
    let mut skipped: Vec<Skipped> = Vec::new();
    let mut left = outcomes;
    let mut step = start;
    loop
        invariant
            whole.calls == calls@.map_values(|call: ApiCall| call@) + play(
                step@,
                outcome_views(left@),
            ).calls,
            whole.skipped == skipped@.map_values(|skipped: Skipped| skipped@) + play(
                step@,
                outcome_views(left@),
            ).skipped,
            whole.result == play(step@, outcome_views(left@)).result,
        decreases left@.len(),
    {
        let ghost before_calls = calls@.map_values(|call: ApiCall| call@);
        let ghost before_skipped = skipped@.map_values(|skipped: Skipped| skipped@);
        let ghost ahead = play(step@, outcome_views(left@));
        let Step { skipped: left_out, next } = step;
        match left_out {
            Some(image) => {
                skipped.push(image);
            },
            None => {},
        }
        assert(skipped@.map_values(|skipped: Skipped| skipped@) =~= before_skipped + noted(
            step@.skipped,
        ));
        match next {
            Next::Done(result) => {
                let run = Run { calls, skipped, result: Some(result) };
                assert(run@.calls =~= whole.calls);
                assert(run@.skipped =~= whole.skipped);
                assert(run@ == whole);
                return run;
            },
            Next::Call { session, call } => {
                calls.push(call);
                assert(calls@.map_values(|call: ApiCall| call@) =~= before_calls + seq![call@]);
                if left.len() == 0 {
                    let run = Run { calls, skipped, result: None };
                    assert(run@.calls =~= whole.calls);
                    assert(run@.skipped =~= whole.skipped);
                    assert(run@ == whole);
                    return run;
                }
                let ghost given = outcome_views(left@);
                let outcome = left.remove(0);
                assert(outcome_views(left@) =~= given.drop_first());
                step = session.resume(outcome);
                let ghost after = play(step@, outcome_views(left@));
                assert(ahead.calls == seq![call@] + after.calls);
                assert(whole.calls =~= calls@.map_values(|call: ApiCall| call@) + after.calls);
                assert(whole.skipped =~= skipped@.map_values(|skipped: Skipped| skipped@)
                    + after.skipped);
            },
        }
    }
}

} // verus!
