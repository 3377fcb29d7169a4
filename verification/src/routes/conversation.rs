//! Carrying a conversation on: what an operation does with each reply, and
//! what a whole operation makes of a store.

use vstd::prelude::*;
use crate::routes::controllers::club_controller::{
    get_club_lookup,
    get_club_on_lookup,
    join_club_found,
    join_insert,
    join_membership,
    join_on_club,
    join_on_insert,
    join_on_membership,
};
use crate::routes::controllers::home_handler::{ping_count, ping_on_count};
use crate::routes::controllers::user_controller::{
    get_user_lookup,
    get_user_on_lookup,
    user_club_found,
    user_club_membership,
    user_club_on_club,
    user_club_on_membership,
};
use crate::routes::flow::{Flow, FlowView, Step, StepView};
use crate::routes::services::auth_service::{
    issued_on,
    login_lookup,
    login_on_lookup,
    register_insert,
    register_lookup,
    register_on_insert,
    register_on_lookup,
};
use crate::routes::services::club_member_service::{
    leave_club_found,
    leave_delete,
    leave_membership,
    leave_on_club,
    leave_on_delete,
    leave_on_membership,
};
use crate::routes::services::club_service::{
    create_coach,
    create_insert,
    create_membership_checked,
    create_name,
    create_on_coach,
    create_on_insert,
    create_on_membership,
    create_on_name,
    delete_club_found,
    delete_membership,
    delete_on_club,
    delete_on_membership,
    delete_on_write,
    delete_write,
    transfer_club_found,
    transfer_membership,
    transfer_on_club,
    transfer_on_membership,
    transfer_on_target,
    transfer_on_target_membership,
    transfer_on_write,
    transfer_target,
    transfer_target_membership,
    transfer_write,
};
use crate::routes::services::user_service::{
    reset_lookup,
    reset_on_lookup,
    reset_on_write,
    reset_write,
    update_lookup,
    update_on_lookup,
    update_on_write,
    update_write,
};
use crate::store::database::Database;
use crate::store::query::{Reply, ReplyView};
use crate::store::state::State;
use crate::utils::api_response::{outcome_of, response, ApiResponse, OutcomeView};
use crate::utils::jwt::{signed, verifies_as};

verus! {

/// What an operation that stands at `flow` does with the store's reply.
/// `secret` is the key that tokens are signed with.
pub open spec fn next_step(secret: Seq<char>, flow: FlowView, reply: ReplyView) -> StepView {
    match flow {
        FlowView::RegisterLookup { json } => register_on_lookup(json, reply),
        FlowView::RegisterInsert => register_on_insert(reply),
        FlowView::LoginLookup { now } => login_on_lookup(secret, now, reply),
        FlowView::UpdateLookup { user_data } => update_on_lookup(user_data, reply),
        FlowView::UpdateWrite => update_on_write(reply),
        FlowView::ResetLookup { old_pass, new_pass } => reset_on_lookup(old_pass, new_pass, reply),
        FlowView::ResetWrite => reset_on_write(reply),
        FlowView::GetUserLookup => get_user_on_lookup(reply),
        FlowView::UserClubMembership { caller } => user_club_on_membership(caller, reply),
        FlowView::UserClubClub { caller } => user_club_on_club(caller, reply),
        FlowView::GetClubLookup => get_club_on_lookup(reply),
        FlowView::CreateCoach { user_id, name } => create_on_coach(user_id, name, reply),
        FlowView::CreateMembership { user_id, name } => create_on_membership(user_id, name, reply),
        FlowView::CreateName { user_id, name } => create_on_name(user_id, name, reply),
        FlowView::CreateInsert => create_on_insert(reply),
        FlowView::LeaveMembership { user_id } => leave_on_membership(user_id, reply),
        FlowView::LeaveClub { user_id, club_member_id } => leave_on_club(
            user_id,
            club_member_id,
            reply,
        ),
        FlowView::LeaveDelete => leave_on_delete(reply),
        FlowView::JoinClub { user_id } => join_on_club(user_id, reply),
        FlowView::JoinMembership { user_id, club_id } => join_on_membership(
            user_id,
            club_id,
            reply,
        ),
        FlowView::JoinInsert => join_on_insert(reply),
        FlowView::DeleteMembership { user_id } => delete_on_membership(user_id, reply),
        FlowView::DeleteClub { user_id } => delete_on_club(user_id, reply),
        FlowView::DeleteWrite => delete_on_write(reply),
        FlowView::TransferTarget { user_id, new_owner_id } => transfer_on_target(
            user_id,
            new_owner_id,
            reply,
        ),
        FlowView::TransferMembership { user_id, new_owner_id } => transfer_on_membership(
            user_id,
            new_owner_id,
            reply,
        ),
        FlowView::TransferClub { user_id, new_owner_id } => transfer_on_club(
            user_id,
            new_owner_id,
            reply,
        ),
        FlowView::TransferTargetMembership { club_id, new_owner_id } => transfer_on_target_membership(
            club_id,
            new_owner_id,
            reply,
        ),
        FlowView::TransferWrite => transfer_on_write(reply),
        FlowView::PingCount => ping_on_count(reply),
    }
}

/// Takes an operation one step on: from where it stands and the store's
/// reply to the next query or to the response.
pub fn resume(secret: &str, flow: Flow, reply: Reply) -> (step: Step)
    ensures
        step@ == next_step(secret@, flow@, reply@),
        flow@ matches FlowView::LoginLookup { now } ==> (issued_on(now, reply@) matches Some(
            claims,
        ) ==> verifies_as(signed(claims, secret@), secret@, claims)),
{
    match flow {
        Flow::RegisterLookup { json } => register_lookup(json, reply),
        Flow::RegisterInsert => register_insert(reply),
        Flow::LoginLookup { now } => login_lookup(secret, now, reply),
        Flow::UpdateLookup { user_data } => update_lookup(user_data, reply),
        Flow::UpdateWrite => update_write(reply),
        Flow::ResetLookup { old_pass, new_pass } => reset_lookup(old_pass, new_pass, reply),
        Flow::ResetWrite => reset_write(reply),
        Flow::GetUserLookup => get_user_lookup(reply),
        Flow::UserClubMembership { caller } => user_club_membership(caller, reply),
        Flow::UserClubClub { caller } => user_club_found(caller, reply),
        Flow::GetClubLookup => get_club_lookup(reply),
        Flow::CreateCoach { user_id, name } => create_coach(user_id, name, reply),
        Flow::CreateMembership { user_id, name } => create_membership_checked(user_id, name, reply),
        Flow::CreateName { user_id, name } => create_name(user_id, name, reply),
        Flow::CreateInsert => create_insert(reply),
        Flow::LeaveMembership { user_id } => leave_membership(user_id, reply),
        Flow::LeaveClub { user_id, club_member_id } => leave_club_found(
            user_id,
            club_member_id,
            reply,
        ),
        Flow::LeaveDelete => leave_delete(reply),
        Flow::JoinClub { user_id } => join_club_found(user_id, reply),
        Flow::JoinMembership { user_id, club_id } => join_membership(user_id, club_id, reply),
        Flow::JoinInsert => join_insert(reply),
        Flow::DeleteMembership { user_id } => delete_membership(user_id, reply),
        Flow::DeleteClub { user_id } => delete_club_found(user_id, reply),
        Flow::DeleteWrite => delete_write(reply),
        Flow::TransferTarget { user_id, new_owner_id } => transfer_target(
            user_id,
            new_owner_id,
            reply,
        ),
        Flow::TransferMembership { user_id, new_owner_id } => transfer_membership(
            user_id,
            new_owner_id,
            reply,
        ),
        Flow::TransferClub { user_id, new_owner_id } => transfer_club_found(
            user_id,
            new_owner_id,
            reply,
        ),
        Flow::TransferTargetMembership { club_id, new_owner_id } => transfer_target_membership(
            club_id,
            new_owner_id,
            reply,
        ),
        Flow::TransferWrite => transfer_write(reply),
        Flow::PingCount => ping_count(reply),
    }
}

/// How many queries an operation that stands at `flow` may still ask.
pub open spec fn queries_left(flow: FlowView) -> nat {
    match flow {
        FlowView::RegisterLookup { .. } => 1,
        FlowView::UpdateLookup { .. } => 1,
        FlowView::ResetLookup { .. } => 1,
        FlowView::UserClubMembership { .. } => 1,
        FlowView::CreateCoach { .. } => 3,
        FlowView::CreateMembership { .. } => 2,
        FlowView::CreateName { .. } => 1,
        FlowView::LeaveMembership { .. } => 2,
        FlowView::LeaveClub { .. } => 1,
        FlowView::JoinClub { .. } => 2,
        FlowView::JoinMembership { .. } => 1,
        FlowView::DeleteMembership { .. } => 2,
        FlowView::DeleteClub { .. } => 1,
        FlowView::TransferTarget { .. } => 4,
        FlowView::TransferMembership { .. } => 3,
        FlowView::TransferClub { .. } => 2,
        FlowView::TransferTargetMembership { .. } => 1,
        _ => 0,
    }
}

/// How many steps an operation may still take from `step`.
pub open spec fn steps_left(step: StepView) -> nat {
    match step {
        StepView::Ask { flow, .. } => queries_left(flow) + 1,
        StepView::Done(_) => 0,
    }
}

/// Every reply brings an operation nearer to its end.
pub proof fn lemma_next_step_shortens(secret: Seq<char>, flow: FlowView, reply: ReplyView)
    ensures
        steps_left(next_step(secret, flow, reply)) <= queries_left(flow),
{
}

/// What a whole operation makes of a store: from `step` on, each query is
/// answered by the store and the reply handed back, until the operation is
/// done. The result is the store as the operation leaves it, and the
/// operation's response.
pub open spec fn run(secret: Seq<char>, s: State, step: StepView) -> (State, OutcomeView)
    decreases steps_left(step),
{
    match step {
        StepView::Done(outcome) => (s, outcome),
        StepView::Ask { query, flow } => {
            let (after, reply) = s.answer(query);
            proof {
                lemma_next_step_shortens(secret, flow, reply);
            }
            run(secret, after, next_step(secret, flow, reply))
        },
    }
}

/// What is made of the store's word on a write that an operation ends
/// with: a refusal is an internal error with the store's reason; anything
/// else is success with `body`.
pub open spec fn stored(written: (State, ReplyView), body: Seq<char>) -> (State, OutcomeView) {
    match written.1 {
        ReplyView::Failed(reason) => (written.0, Err(response(500, reason))),
        _ => (written.0, Ok(response(200, body))),
    }
}

/// Runs an operation to its end against the store in memory.
pub fn serve(db: &mut Database, secret: &str, step: Step) -> (outcome: Result<
    ApiResponse,
    ApiResponse,
>)
    ensures
        (final(db)@, outcome_of(outcome)) == run(secret@, old(db)@, step@),
        old(db)@.wf() ==> final(db)@.wf(),
{
    let mut current = step;
    loop
        invariant
            run(secret@, db@, current@) == run(secret@, old(db)@, step@),
            old(db)@.wf() ==> db@.wf(),
        decreases steps_left(current@),
    {
        match current {
            Step::Done(outcome) => {
                return outcome;
            },
            Step::Ask { query, flow } => {
                proof {
                    lemma_next_step_shortens(secret@, flow@, db@.answer(query@).1);
                }
                let reply = db.perform(query);
                current = resume(secret, flow, reply);
            },
        }
    }
}

} // verus!
