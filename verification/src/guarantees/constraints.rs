//! Whatever is asked of the service, the constraints of the schema stay in
//! force.

use vstd::prelude::*;
use crate::routes::conversation::{lemma_next_step_shortens, next_step, run, steps_left};
use crate::routes::flow::StepView;
use crate::store::constraints::lemma_answer_keeps_wf;
use crate::store::state::State;

verus! {

/// A conversation with the store, wherever it stands and whatever it asks
/// from there, leaves a store whose constraints hold in a store whose
/// constraints hold.
pub proof fn every_operation_keeps_the_constraints(secret: Seq<char>, s: State, step: StepView)
    requires
        s.wf(),
    ensures
        run(secret, s, step).0.wf(),
    decreases steps_left(step),
{
    match step {
        StepView::Done(_) => {},
        StepView::Ask { query, flow } => {
            let (after, reply) = s.answer(query);
            lemma_answer_keeps_wf(s, query);
            lemma_next_step_shortens(secret, flow, reply);
            every_operation_keeps_the_constraints(secret, after, next_step(secret, flow, reply));
        },
    }
}

} // verus!
