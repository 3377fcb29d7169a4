//! Showing a club and joining one.

use vstd::prelude::*;
use crate::entities::{club, club_member};
use crate::routes::conversation::{run, serve};
use crate::routes::flow::{accept, accepted, fail, failure, refuse, refused, Flow, FlowView, Step, StepView};
use crate::routes::services::club_member_service::leave_outcome;
use crate::routes::services::club_service::{create_outcome, delete_outcome, transfer_outcome};
use crate::routes::services::{club_member_service, club_service};
use crate::store::database::Database;
use crate::store::query::{Query, QueryView, Reply, ReplyView};
use crate::store::search::lemma_position;
use crate::store::state::{club_with_id, State};
use crate::utils::api_response::{outcome_of, response, ApiResponse, OutcomeView};
use crate::utils::jwt::{Claims, ClaimsView};
use crate::utils::request_models::club_models::{ClubModel, TransferOwnerModel};
use crate::utils::text::{decimal, push_decimal};

verus! {

/// The body that shows a club.
pub open spec fn club_text(club: club::Row) -> Seq<char> {
    "{ 'club_id': "@ + decimal(club.club_id as int) + ", 'name': "@ + club.name
        + ", 'owner_id': "@ + decimal(club.owner_id as int) + " }"@
}

/// Renders the body that shows a club.
pub fn club_body(club: &club::Model) -> (body: String)
    ensures
        body@ == club_text(club@),
{
    let mut body = String::from_str("{ 'club_id': ");
    push_decimal(&mut body, club.club_id as i64);
    body.append(", 'name': ");
    body.append(club.name.as_str());
    body.append(", 'owner_id': ");
    push_decimal(&mut body, club.owner_id as i64);
    body.append(" }");
    body
}

/// How showing a club begins: the store is asked for it.
pub open spec fn get_club_start(club_id: i32) -> StepView {
    StepView::Ask { query: QueryView::ClubById { club_id }, flow: FlowView::GetClubLookup }
}

/// Showing a club, once the store has looked for it.
pub open spec fn get_club_on_lookup(reply: ReplyView) -> StepView {
    match reply {
        ReplyView::Club(Some(club)) => accepted(club_text(club)),
        ReplyView::Club(None) => refused(404, "No club found with that club_id"@),
        _ => failure(reply),
    }
}

/// Begins showing the club with this id.
pub fn begin_get_club(club_id: i32) -> (step: Step)
    ensures
        step@ == get_club_start(club_id),
{
    Step::Ask { query: Query::ClubById { club_id }, flow: Flow::GetClubLookup }
}

/// Ends showing a club with the store's word on it.
pub fn get_club_lookup(reply: Reply) -> (step: Step)
    ensures
        step@ == get_club_on_lookup(reply@),
{
    match reply {
        Reply::Club(Some(club)) => accept(club_body(&club)),
        Reply::Club(None) => refuse(404, "No club found with that club_id"),
        other => fail(other),
    }
}

/// The body that reports a new membership.
pub open spec fn membership_text(member: club_member::Model) -> Seq<char> {
    "{ 'club_member_id': "@ + decimal(member.club_member_id as int) + ", 'user_id': "@ + decimal(
        member.user_id as int,
    ) + ", 'club_id': "@ + decimal(member.club_id as int)
}

/// Renders the body that reports a new membership.
pub fn membership_body(member: &club_member::Model) -> (body: String)
    ensures
        body@ == membership_text(*member),
{
    let mut body = String::from_str("{ 'club_member_id': ");
    push_decimal(&mut body, member.club_member_id as i64);
    body.append(", 'user_id': ");
    push_decimal(&mut body, member.user_id as i64);
    body.append(", 'club_id': ");
    push_decimal(&mut body, member.club_id as i64);
    body
}

/// How joining begins: the store is asked for the club.
pub open spec fn join_start(claim_data: ClaimsView, club_id: i32) -> StepView {
    StepView::Ask {
        query: QueryView::ClubById { club_id },
        flow: FlowView::JoinClub { user_id: claim_data.user_id },
    }
}

/// Joining, once the store has looked for the club: the store is asked
/// for the caller's membership.
pub open spec fn join_on_club(user_id: i32, reply: ReplyView) -> StepView {
    match reply {
        ReplyView::Club(Some(club)) => StepView::Ask {
            query: QueryView::MemberByUser { user_id },
            flow: FlowView::JoinMembership { user_id, club_id: club.club_id },
        },
        ReplyView::Club(None) => refused(404, "No club found with that club_id"@),
        _ => failure(reply),
    }
}

/// Joining, once the caller's membership is known: a member of a club
/// cannot join another; otherwise the membership is added.
pub open spec fn join_on_membership(user_id: i32, club_id: i32, reply: ReplyView) -> StepView {
    match reply {
        ReplyView::Member(None) => StepView::Ask {
            query: QueryView::InsertMember { user_id, club_id },
            flow: FlowView::JoinInsert,
        },
        ReplyView::Member(Some(_)) => refused(409, "User is already a member of a club"@),
        _ => failure(reply),
    }
}

/// Joining, once the membership is added.
pub open spec fn join_on_insert(reply: ReplyView) -> StepView {
    match reply {
        ReplyView::Member(Some(member)) => accepted(membership_text(member)),
        _ => failure(reply),
    }
}

/// Begins adding the caller to the club with this id.
pub fn begin_join_club(claim_data: &Claims, club_id: i32) -> (step: Step)
    ensures
        step@ == join_start(claim_data@, club_id),
{
    Step::Ask {
        query: Query::ClubById { club_id },
        flow: Flow::JoinClub { user_id: claim_data.user_id },
    }
}

/// Goes on joining with the store's word on the club.
pub fn join_club_found(user_id: i32, reply: Reply) -> (step: Step)
    ensures
        step@ == join_on_club(user_id, reply@),
{
    match reply {
        Reply::Club(Some(club)) => Step::Ask {
            query: Query::MemberByUser { user_id },
            flow: Flow::JoinMembership { user_id, club_id: club.club_id },
        },
        Reply::Club(None) => refuse(404, "No club found with that club_id"),
        other => fail(other),
    }
}

/// Goes on joining with the store's word on the caller's membership.
pub fn join_membership(user_id: i32, club_id: i32, reply: Reply) -> (step: Step)
    ensures
        step@ == join_on_membership(user_id, club_id, reply@),
{
    match reply {
        Reply::Member(None) => Step::Ask {
            query: Query::InsertMember { user_id, club_id },
            flow: Flow::JoinInsert,
        },
        Reply::Member(Some(_)) => refuse(409, "User is already a member of a club"),
        other => fail(other),
    }
}

/// Ends joining with the store's word on the new membership.
pub fn join_insert(reply: Reply) -> (step: Step)
    ensures
        step@ == join_on_insert(reply@),
{
    match reply {
        Reply::Member(Some(member)) => accept(membership_body(&member)),
        other => fail(other),
    }
}

/// What showing a club makes of a store: nothing. The response shows the
/// club, or refuses (404) when there is none.
pub open spec fn get_club_outcome(s: State, club_id: i32) -> (State, OutcomeView) {
    match s.club(club_id) {
        Some(club) => (s, Ok(response(200, club_text(club)))),
        None => (s, Err(response(404, "No club found with that club_id"@))),
    }
}

/// Run against a store, the conversation that `begin_get_club` opens does
/// what `get_club_outcome` says.
pub proof fn lemma_get_club_runs(secret: Seq<char>, s: State, club_id: i32)
    ensures
        run(secret, s, get_club_start(club_id)) == get_club_outcome(s, club_id),
{
    reveal_with_fuel(run, 2);
}

/// Shows the club with this id.
pub fn get_club(db: &mut Database, club_id: i32) -> (outcome: Result<ApiResponse, ApiResponse>)
    ensures
        (final(db)@, outcome_of(outcome)) == get_club_outcome(old(db)@, club_id),
{
    proof {
        lemma_get_club_runs(""@, db@, club_id);
    }
    serve(db, "", begin_get_club(club_id))
}

/// What joining makes of a store. The club must exist (else 404) and the
/// caller must not be in a club (else 409); a refusal leaves the store as
/// it is. Otherwise the caller's membership is added under the next id,
/// and the response reports it; if the store refuses the insertion, the
/// response is an internal error with its reason.
pub open spec fn join_outcome(s: State, claim_data: ClaimsView, club_id: i32) -> (
    State,
    OutcomeView,
) {
    if s.club(club_id) is None {
        (s, Err(response(404, "No club found with that club_id"@)))
    } else if s.membership_of(claim_data.user_id) is Some {
        (s, Err(response(409, "User is already a member of a club"@)))
    } else {
        let (after, reply) = s.insert_member(claim_data.user_id, club_id);
        match reply {
            ReplyView::Failed(reason) => (after, Err(response(500, reason))),
            _ => (
                after,
                Ok(
                    response(
                        200,
                        membership_text(
                            club_member::Model {
                                club_member_id: (s.member_ids + 1) as i32,
                                user_id: claim_data.user_id,
                                club_id,
                            },
                        ),
                    ),
                ),
            ),
        }
    }
}

/// Run against a store, the conversation that `begin_join_club` opens does
/// what `join_outcome` says.
pub proof fn lemma_join_runs(secret: Seq<char>, s: State, claim_data: ClaimsView, club_id: i32)
    ensures
        run(secret, s, join_start(claim_data, club_id)) == join_outcome(s, claim_data, club_id),
{
    reveal_with_fuel(run, 4);
    lemma_position(s.clubs, club_with_id(club_id));
}

/// Adds the caller to the club with this id.
pub fn join_club(db: &mut Database, claim_data: Claims, club_id: i32) -> (outcome: Result<
    ApiResponse,
    ApiResponse,
>)
    ensures
        (final(db)@, outcome_of(outcome)) == join_outcome(old(db)@, claim_data@, club_id),
        old(db)@.wf() ==> final(db)@.wf(),
{
    proof {
        lemma_join_runs(""@, db@, claim_data@, club_id);
    }
    serve(db, "", begin_join_club(&claim_data, club_id))
}

/// Founds the club that the request names, for the caller.
pub fn create_club(db: &mut Database, claim_data: Claims, json: ClubModel) -> (outcome: Result<
    ApiResponse,
    ApiResponse,
>)
    ensures
        (final(db)@, outcome_of(outcome)) == create_outcome(old(db)@, claim_data@, json.name@),
        old(db)@.wf() ==> final(db)@.wf(),
{
    club_service::create_club(db, claim_data, json.name)
}

/// Takes the caller out of their club.
pub fn leave_club(db: &mut Database, claim_data: Claims) -> (outcome: Result<
    ApiResponse,
    ApiResponse,
>)
    ensures
        (final(db)@, outcome_of(outcome)) == leave_outcome(old(db)@, claim_data@),
        old(db)@.wf() ==> final(db)@.wf(),
{
    club_member_service::leave_club(db, claim_data)
}

/// Deletes the club that the caller owns.
pub fn delete_club(db: &mut Database, claim_data: Claims) -> (outcome: Result<
    ApiResponse,
    ApiResponse,
>)
    ensures
        (final(db)@, outcome_of(outcome)) == delete_outcome(old(db)@, claim_data@),
        old(db)@.wf() ==> final(db)@.wf(),
{
    club_service::delete_club(db, claim_data)
}

/// Hands the caller's club over to the coach that the request names.
pub fn transfer_ownership(db: &mut Database, claim_data: Claims, json: TransferOwnerModel) -> (outcome:
    Result<ApiResponse, ApiResponse>)
    ensures
        (final(db)@, outcome_of(outcome)) == transfer_outcome(
            old(db)@,
            claim_data@,
            json.new_owner_id,
        ),
        old(db)@.wf() ==> final(db)@.wf(),
{
    club_service::transfer_ownership(db, claim_data, json.new_owner_id)
}

} // verus!
