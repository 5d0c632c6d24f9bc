//! Requests that take more than one call to a manager.

use vstd::prelude::*;

verus! {

/// What a request does next: make a call, to whose outcome the state is the
/// continuation, or be answered.
#[derive(Debug)]
pub enum Step<C, S, R> {
    /// Make the call, then hand its outcome to the state.
    Call(C, S),
    /// Answer the request.
    Reply(R),
}

impl<C: View, S: View, R> View for Step<C, S, R> {
    type V = Step<C::V, S::V, R>;

    open spec fn view(&self) -> Step<C::V, S::V, R> {
        match self {
            Step::Call(call, state) => Step::Call(call@, state@),
            Step::Reply(reply) => Step::Reply(*reply),
        }
    }
}

/// The calls that a request makes from `step` on, and its answer, when the
/// calls have `outcomes`. There is no answer where the outcomes run out.
pub open spec fn run<C, S, O, R>(
    resume: spec_fn(S, O) -> Step<C, S, R>,
    step: Step<C, S, R>,
    outcomes: Seq<O>,
) -> (Seq<C>, Option<R>)
    decreases outcomes.len(),
{
    match step {
        Step::Reply(reply) => (Seq::empty(), Some(reply)),
        Step::Call(call, state) => if outcomes.len() == 0 {
            (seq![call], None)
        } else {
            let later = run(resume, resume(state, outcomes.first()), outcomes.drop_first());
            (seq![call] + later.0, later.1)
        },
    }
}

} // verus!
