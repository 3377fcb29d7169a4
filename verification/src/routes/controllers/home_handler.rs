//! A greeting, and a check that the store answers.

use vstd::prelude::*;
use crate::routes::conversation::{run, serve};
use crate::routes::flow::{accept, accepted, fail, failure, Flow, FlowView, Step, StepView};
use crate::store::database::Database;
use crate::store::query::{Query, QueryView, Reply, ReplyView};
use crate::store::state::State;
use crate::utils::api_response::{outcome_of, response, ApiResponse, ResponseView};

verus! {

/// Greets by name.
pub fn greet(name: &str) -> (greeting: ApiResponse)
    ensures
        greeting@ == response(200, "Hello "@ + name@ + "!"@),
{
    let mut body = String::from_str("Hello ");
    body.append(name);
    body.append("!");
    ApiResponse { status_code: 200, body }
}

/// How a ping begins: the store is asked to count the users.
pub open spec fn ping_start() -> StepView {
    StepView::Ask { query: QueryView::CountUsers, flow: FlowView::PingCount }
}

/// A ping, once the store has counted.
pub open spec fn ping_on_count(reply: ReplyView) -> StepView {
    match reply {
        ReplyView::Rows(_) => accepted("Pong!"@),
        _ => failure(reply),
    }
}

/// Begins a ping.
pub fn begin_ping() -> (step: Step)
    ensures
        step@ == ping_start(),
{
    Step::Ask { query: Query::CountUsers, flow: Flow::PingCount }
}

/// Ends a ping with the store's count.
pub fn ping_count(reply: Reply) -> (step: Step)
    ensures
        step@ == ping_on_count(reply@),
{
    match reply {
        Reply::Rows(_) => accept(String::from_str("Pong!")),
        other => fail(other),
    }
}

/// Run against a store, a ping leaves it as it is and answers "Pong!".
pub proof fn lemma_ping_runs(secret: Seq<char>, s: State)
    ensures
        run(secret, s, ping_start()) == (s, Ok::<_, ResponseView>(
            response(200, "Pong!"@),
        )),
{
    reveal_with_fuel(run, 2);
}

/// Checks that the store answers.
pub fn ping(db: &mut Database) -> (outcome: Result<ApiResponse, ApiResponse>)
    ensures
        final(db)@ == old(db)@,
        outcome_of(outcome) == Ok::<_, ResponseView>(
            response(200, "Pong!"@),
        ),
{
    proof {
        lemma_ping_runs(""@, db@);
    }
    serve(db, "", begin_ping())
}

} // verus!
