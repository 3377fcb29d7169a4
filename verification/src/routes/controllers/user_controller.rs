//! Showing a user, and showing to the caller the club they are in.

use vstd::prelude::*;
use crate::entities::{club, user};
use crate::routes::conversation::{run, serve};
use crate::routes::flow::{accept, accepted, fail, failure, refuse, refused, Flow, FlowView, Step, StepView};
use crate::routes::services::user_service;
use crate::routes::services::user_service::{reset_outcome, update_outcome};
use crate::store::database::Database;
use crate::store::query::{Query, QueryView, Reply, ReplyView};
use crate::store::state::State;
use crate::utils::api_response::{outcome_of, response, ApiResponse, OutcomeView};
use crate::utils::jwt::{Claims, ClaimsView};
use crate::utils::request_models::user_models::{UpdatePasswordModel, UpdateUserModel};
use crate::utils::text::{decimal, push_decimal};

verus! {

/// The body that shows a user: every field but the password digest.
pub open spec fn user_text(user: user::Row) -> Seq<char> {
    "{ 'user_id': "@ + decimal(user.user_id as int) + ", 'user_type': "@ + user.user_type
        + ", 'name_first': "@ + user.name_first + ", 'name_last': "@ + user.name_last
        + ", 'email': "@ + user.email + " }"@
}

/// Renders the body that shows a user.
pub fn user_body(user: &user::Model) -> (body: String)
    ensures
        body@ == user_text(user@),
{
    let mut body = String::from_str("{ 'user_id': ");
    push_decimal(&mut body, user.user_id as i64);
    body.append(", 'user_type': ");
    body.append(user.user_type.as_str());
    body.append(", 'name_first': ");
    body.append(user.name_first.as_str());
    body.append(", 'name_last': ");
    body.append(user.name_last.as_str());
    body.append(", 'email': ");
    body.append(user.email.as_str());
    body.append(" }");
    body
}

/// How showing a user begins: the store is asked for them.
pub open spec fn get_user_start(user_id: i32) -> StepView {
    StepView::Ask {
        query: QueryView::UserById { user_id, user_type: None },
        flow: FlowView::GetUserLookup,
    }
}

/// Showing a user, once the store has looked for them.
pub open spec fn get_user_on_lookup(reply: ReplyView) -> StepView {
    match reply {
        ReplyView::User(Some(user)) => accepted(user_text(user)),
        ReplyView::User(None) => refused(404, "User not found"@),
        _ => failure(reply),
    }
}

/// Begins showing the user with this id.
pub fn begin_get_user(user_id: i32) -> (step: Step)
    ensures
        step@ == get_user_start(user_id),
{
    Step::Ask { query: Query::UserById { user_id, user_type: None }, flow: Flow::GetUserLookup }
}

/// Ends showing a user with the store's word on them.
pub fn get_user_lookup(reply: Reply) -> (step: Step)
    ensures
        step@ == get_user_on_lookup(reply@),
{
    match reply {
        Reply::User(Some(user)) => accept(user_body(&user)),
        Reply::User(None) => refuse(404, "User not found"),
        other => fail(other),
    }
}

/// The body that shows to the caller the club they are in.
pub open spec fn user_club_text(caller: i32, club: club::Row) -> Seq<char> {
    "{ 'user_id': "@ + decimal(caller as int) + ", 'club_id': "@ + decimal(club.club_id as int)
        + ", 'name': "@ + club.name + " }"@
}

/// Renders the body that shows to the caller the club they are in.
pub fn user_club_body(caller: i32, club: &club::Model) -> (body: String)
    ensures
        body@ == user_club_text(caller, club@),
{
    let mut body = String::from_str("{ 'user_id': ");
    push_decimal(&mut body, caller as i64);
    body.append(", 'club_id': ");
    push_decimal(&mut body, club.club_id as i64);
    body.append(", 'name': ");
    body.append(club.name.as_str());
    body.append(" }");
    body
}

/// How showing the caller's club begins: the store is asked for the
/// caller's membership.
pub open spec fn user_club_start(claim_data: ClaimsView) -> StepView {
    StepView::Ask {
        query: QueryView::MemberByUser { user_id: claim_data.user_id },
        flow: FlowView::UserClubMembership { caller: claim_data.user_id },
    }
}

/// Showing the caller's club, once the membership is known: the store is
/// asked for the club.
pub open spec fn user_club_on_membership(caller: i32, reply: ReplyView) -> StepView {
    match reply {
        ReplyView::Member(Some(member)) => StepView::Ask {
            query: QueryView::ClubById { club_id: member.club_id },
            flow: FlowView::UserClubClub { caller },
        },
        ReplyView::Member(None) => refused(404, "No club found for user"@),
        _ => failure(reply),
    }
}

/// Showing the caller's club, once the club is known.
pub open spec fn user_club_on_club(caller: i32, reply: ReplyView) -> StepView {
    match reply {
        ReplyView::Club(Some(club)) => accepted(user_club_text(caller, club)),
        ReplyView::Club(None) => refused(404, "No club found with that club_id"@),
        _ => failure(reply),
    }
}

/// Begins showing to the caller the club they are in.
pub fn begin_get_user_club(claim_data: &Claims) -> (step: Step)
    ensures
        step@ == user_club_start(claim_data@),
{
    Step::Ask {
        query: Query::MemberByUser { user_id: claim_data.user_id },
        flow: Flow::UserClubMembership { caller: claim_data.user_id },
    }
}

/// Goes on showing the caller's club with the store's word on the
/// membership.
pub fn user_club_membership(caller: i32, reply: Reply) -> (step: Step)
    ensures
        step@ == user_club_on_membership(caller, reply@),
{
    match reply {
        Reply::Member(Some(member)) => Step::Ask {
            query: Query::ClubById { club_id: member.club_id },
            flow: Flow::UserClubClub { caller },
        },
        Reply::Member(None) => refuse(404, "No club found for user"),
        other => fail(other),
    }
}

/// Ends showing the caller's club with the store's word on the club.
pub fn user_club_found(caller: i32, reply: Reply) -> (step: Step)
    ensures
        step@ == user_club_on_club(caller, reply@),
{
    match reply {
        Reply::Club(Some(club)) => accept(user_club_body(caller, &club)),
        Reply::Club(None) => refuse(404, "No club found with that club_id"),
        other => fail(other),
    }
}

/// What showing a user makes of a store: nothing. The response shows the
/// user, or refuses (404) when there is none.
pub open spec fn get_user_outcome(s: State, user_id: i32) -> (State, OutcomeView) {
    match s.user(user_id) {
        Some(user) => (s, Ok(response(200, user_text(user)))),
        None => (s, Err(response(404, "User not found"@))),
    }
}

/// Run against a store, the conversation that `begin_get_user` opens does
/// what `get_user_outcome` says.
pub proof fn lemma_get_user_runs(secret: Seq<char>, s: State, user_id: i32)
    ensures
        run(secret, s, get_user_start(user_id)) == get_user_outcome(s, user_id),
{
    reveal_with_fuel(run, 2);
}

/// Shows the user with this id.
pub fn get_user(db: &mut Database, user_id: i32) -> (outcome: Result<ApiResponse, ApiResponse>)
    ensures
        (final(db)@, outcome_of(outcome)) == get_user_outcome(old(db)@, user_id),
{
    proof {
        lemma_get_user_runs(""@, db@, user_id);
    }
    serve(db, "", begin_get_user(user_id))
}

/// What showing the caller's club makes of a store: nothing. The
/// response shows the caller's own id with the id and the name of the club
/// they are in, or refuses (404) when they are in none.
pub open spec fn user_club_outcome(s: State, claim_data: ClaimsView) -> (State, OutcomeView) {
    match s.membership_of(claim_data.user_id) {
        None => (s, Err(response(404, "No club found for user"@))),
        Some(member) => match s.club(member.club_id) {
            None => (s, Err(response(404, "No club found with that club_id"@))),
            Some(club) => (s, Ok(response(200, user_club_text(claim_data.user_id, club)))),
        },
    }
}

/// Run against a store, the conversation that `begin_get_user_club` opens
/// does what `user_club_outcome` says.
pub proof fn lemma_user_club_runs(secret: Seq<char>, s: State, claim_data: ClaimsView)
    ensures
        run(secret, s, user_club_start(claim_data)) == user_club_outcome(s, claim_data),
{
    reveal_with_fuel(run, 3);
}

/// Shows to the caller the club they are in.
pub fn get_user_club(db: &mut Database, claim_data: Claims) -> (outcome: Result<
    ApiResponse,
    ApiResponse,
>)
    ensures
        (final(db)@, outcome_of(outcome)) == user_club_outcome(old(db)@, claim_data@),
{
    proof {
        lemma_user_club_runs(""@, db@, claim_data@);
    }
    serve(db, "", begin_get_user_club(&claim_data))
}

/// Replaces the caller's password as the request says.
pub fn reset_password(db: &mut Database, claim_data: Claims, json: UpdatePasswordModel) -> (outcome:
    Result<ApiResponse, ApiResponse>)
    ensures
        (final(db)@, outcome_of(outcome)) == reset_outcome(
            old(db)@,
            claim_data@,
            json.old_password@,
            json.new_password@,
        ),
        old(db)@.wf() ==> final(db)@.wf(),
{
    user_service::reset_password(db, claim_data, json.old_password, json.new_password)
}

/// Updates the caller's profile as the request says.
pub fn update(db: &mut Database, claim_data: Claims, user_data: UpdateUserModel) -> (outcome:
    Result<ApiResponse, ApiResponse>)
    ensures
        (final(db)@, outcome_of(outcome)) == update_outcome(old(db)@, claim_data@, user_data@),
        old(db)@.wf() ==> final(db)@.wf(),
{
    user_service::update_user(db, user_data, claim_data)
}

} // verus!
