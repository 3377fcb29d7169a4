//! Clubs: founding one, deleting one, handing one over.

use vstd::prelude::*;
use crate::entities::{club, club_member};
use crate::routes::conversation::{run, serve};
use crate::routes::services::club_member_service::read_member;
use crate::routes::flow::{accept, accepted, fail, failure, refuse, refused, unexpected_reply, Flow, FlowView, Step, StepView};
use crate::store::database::Database;
use crate::store::query::{Query, QueryView, Reply, ReplyView};
use crate::store::search::{lemma_position, position};
use crate::store::state::{club_with_id, no_id_left, user_with_id, State};
use crate::utils::api_response::{outcome_of, response, ApiResponse, OutcomeView, ResponseView};
use crate::utils::jwt::{Claims, ClaimsView};
use crate::utils::text::{decimal, lowercase, push_decimal, same_text, to_lowercase};

verus! {

/// The body that reports a newly founded club.
pub open spec fn founded_text(club: club::Row, member: club_member::Model) -> Seq<char> {
    "{ 'member_id': "@ + decimal(member.club_member_id as int) + ", 'club_id': "@ + decimal(
        club.club_id as int,
    ) + ", 'name': "@ + club.name + " }"@
}

/// Renders the body that reports a newly founded club.
pub fn founded_body(club: &club::Model, member: &club_member::Model) -> (body: String)
    ensures
        body@ == founded_text(club@, *member),
{
    let mut body = String::from_str("{ 'member_id': ");
    push_decimal(&mut body, member.club_member_id as i64);
    body.append(", 'club_id': ");
    push_decimal(&mut body, club.club_id as i64);
    body.append(", 'name': ");
    body.append(club.name.as_str());
    body.append(" }");
    body
}

/// The step that asks the store for the caller as a coach, on the way to
/// founding a club under `name`.
pub open spec fn coach_lookup(user_id: i32, name: Seq<char>) -> StepView {
    StepView::Ask {
        query: QueryView::UserById { user_id, user_type: Some("C"@) },
        flow: FlowView::CreateCoach { user_id, name },
    }
}

/// How founding a club begins: the store is asked for the caller as a
/// coach. The club's name is folded to lower case from here on.
pub open spec fn create_start(claim_data: ClaimsView, club_name: Seq<char>) -> StepView {
    coach_lookup(claim_data.user_id, lowercase(club_name))
}

/// Founding a club, once the store has looked for the coach: the store is
/// asked for the caller's membership.
pub open spec fn create_on_coach(user_id: i32, name: Seq<char>, reply: ReplyView) -> StepView {
    match reply {
        ReplyView::User(Some(coach)) => StepView::Ask {
            query: QueryView::MemberByUser { user_id },
            flow: FlowView::CreateMembership { user_id: coach.user_id, name },
        },
        ReplyView::User(None) => refused(404, "Coach account not found for that email"@),
        _ => failure(reply),
    }
}

/// Founding a club, once the caller's membership is known: a member of a
/// club cannot found another; otherwise the store is asked for the name.
pub open spec fn create_on_membership(user_id: i32, name: Seq<char>, reply: ReplyView) -> StepView {
    match reply {
        ReplyView::Member(None) => StepView::Ask {
            query: QueryView::ClubByName { name },
            flow: FlowView::CreateName { user_id, name },
        },
        ReplyView::Member(Some(_)) => refused(409, "Users cannot be part of two clubs at once"@),
        _ => failure(reply),
    }
}

/// Founding a club, once the store has looked for the name: a taken name
/// is a conflict; otherwise the club is added with the caller as its owner
/// and first member.
pub open spec fn create_on_name(user_id: i32, name: Seq<char>, reply: ReplyView) -> StepView {
    match reply {
        ReplyView::Club(None) => StepView::Ask {
            query: QueryView::InsertClub { name, owner_id: user_id },
            flow: FlowView::CreateInsert,
        },
        ReplyView::Club(Some(_)) => refused(
            409,
            "A club with that name already exists. Please try a different name"@,
        ),
        _ => failure(reply),
    }
}

/// Founding a club, once club and membership are added.
pub open spec fn create_on_insert(reply: ReplyView) -> StepView {
    match reply {
        ReplyView::Founded { club, member } => accepted(founded_text(club, member)),
        _ => failure(reply),
    }
}

/// Begins founding a club of this name for the caller.
pub fn begin_create_club(claim_data: &Claims, club_name: String) -> (step: Step)
    ensures
        step@ == create_start(claim_data@, club_name@),
{
    let name = to_lowercase(club_name.as_str());
    look_up_coach(claim_data.user_id, name)
}

/// Asks the store for the caller as a coach, on the way to founding a club
/// under `name`, which is stored as it is.
pub fn look_up_coach(user_id: i32, name: String) -> (step: Step)
    ensures
        step@ == coach_lookup(user_id, name@),
{
    Step::Ask {
        query: Query::UserById { user_id, user_type: Some(String::from_str("C")) },
        flow: Flow::CreateCoach { user_id, name },
    }
}

/// Goes on founding with the store's word on the coach.
pub fn create_coach(user_id: i32, name: String, reply: Reply) -> (step: Step)
    ensures
        step@ == create_on_coach(user_id, name@, reply@),
{
    match reply {
        Reply::User(Some(coach)) => Step::Ask {
            query: Query::MemberByUser { user_id },
            flow: Flow::CreateMembership { user_id: coach.user_id, name },
        },
        Reply::User(None) => refuse(404, "Coach account not found for that email"),
        other => fail(other),
    }
}

/// Goes on founding with the store's word on the caller's membership.
pub fn create_membership_checked(user_id: i32, name: String, reply: Reply) -> (step: Step)
    ensures
        step@ == create_on_membership(user_id, name@, reply@),
{
    match reply {
        Reply::Member(None) => Step::Ask {
            query: Query::ClubByName { name: name.clone() },
            flow: Flow::CreateName { user_id, name },
        },
        Reply::Member(Some(_)) => refuse(409, "Users cannot be part of two clubs at once"),
        other => fail(other),
    }
}

/// Goes on founding with the store's word on the name.
pub fn create_name(user_id: i32, name: String, reply: Reply) -> (step: Step)
    ensures
        step@ == create_on_name(user_id, name@, reply@),
{
    match reply {
        Reply::Club(None) => Step::Ask {
            query: Query::InsertClub { name, owner_id: user_id },
            flow: Flow::CreateInsert,
        },
        Reply::Club(Some(_)) => refuse(
            409,
            "A club with that name already exists. Please try a different name",
        ),
        other => fail(other),
    }
}

/// Ends founding with the store's word on the new rows.
pub fn create_insert(reply: Reply) -> (step: Step)
    ensures
        step@ == create_on_insert(reply@),
{
    match reply {
        Reply::Founded { club, member } => accept(founded_body(&club, &member)),
        other => fail(other),
    }
}

/// What a caller who does not own a club is told.
pub open spec fn not_owner() -> StepView {
    refused(401, "User is not the owner of this club"@)
}

/// How deleting a club begins: the store is asked for the caller's
/// membership.
pub open spec fn delete_start(claim_data: ClaimsView) -> StepView {
    StepView::Ask {
        query: QueryView::MemberByUser { user_id: claim_data.user_id },
        flow: FlowView::DeleteMembership { user_id: claim_data.user_id },
    }
}

/// Deleting a club, once the caller's membership is known: the store is
/// asked for the club.
pub open spec fn delete_on_membership(user_id: i32, reply: ReplyView) -> StepView {
    match reply {
        ReplyView::Member(Some(member)) => StepView::Ask {
            query: QueryView::ClubById { club_id: member.club_id },
            flow: FlowView::DeleteClub { user_id },
        },
        ReplyView::Member(None) => not_owner(),
        _ => failure(reply),
    }
}

/// Deleting a club, once the club is known: only its owner may go on.
pub open spec fn delete_on_club(user_id: i32, reply: ReplyView) -> StepView {
    match reply {
        ReplyView::Club(Some(club)) => if club.owner_id == user_id {
            StepView::Ask {
                query: QueryView::DeleteClub { club_id: club.club_id },
                flow: FlowView::DeleteWrite,
            }
        } else {
            not_owner()
        },
        ReplyView::Club(None) => not_owner(),
        _ => failure(reply),
    }
}

/// Deleting a club, once the store has removed rows: exactly one club must
/// be gone.
pub open spec fn delete_on_write(reply: ReplyView) -> StepView {
    match reply {
        ReplyView::Rows(count) => if count == 1 {
            accepted("Club deleted successfully"@)
        } else {
            refused(500, "Internal server error: Club could not be deleted"@)
        },
        _ => failure(reply),
    }
}

/// Begins deleting the club that the caller owns.
pub fn begin_delete_club(claim_data: &Claims) -> (step: Step)
    ensures
        step@ == delete_start(claim_data@),
{
    Step::Ask {
        query: Query::MemberByUser { user_id: claim_data.user_id },
        flow: Flow::DeleteMembership { user_id: claim_data.user_id },
    }
}

fn refuse_not_owner() -> (step: Step)
    ensures
        step@ == not_owner(),
{
    refuse(401, "User is not the owner of this club")
}

/// Goes on deleting with the store's word on the caller's membership.
pub fn delete_membership(user_id: i32, reply: Reply) -> (step: Step)
    ensures
        step@ == delete_on_membership(user_id, reply@),
{
    match reply {
        Reply::Member(Some(member)) => Step::Ask {
            query: Query::ClubById { club_id: member.club_id },
            flow: Flow::DeleteClub { user_id },
        },
        Reply::Member(None) => refuse_not_owner(),
        other => fail(other),
    }
}

/// Goes on deleting with the store's word on the club.
pub fn delete_club_found(user_id: i32, reply: Reply) -> (step: Step)
    ensures
        step@ == delete_on_club(user_id, reply@),
{
    match reply {
        Reply::Club(Some(club)) => {
            if club.owner_id == user_id {
                Step::Ask {
                    query: Query::DeleteClub { club_id: club.club_id },
                    flow: Flow::DeleteWrite,
                }
            } else {
                refuse_not_owner()
            }
        },
        Reply::Club(None) => refuse_not_owner(),
        other => fail(other),
    }
}

/// Ends deleting with the store's count of removed rows.
pub fn delete_write(reply: Reply) -> (step: Step)
    ensures
        step@ == delete_on_write(reply@),
{
    match reply {
        Reply::Rows(count) => {
            if count == 1 {
                accept(String::from_str("Club deleted successfully"))
            } else {
                refuse(500, "Internal server error: Club could not be deleted")
            }
        },
        other => fail(other),
    }
}

/// How handing a club over begins: the store is asked for the new owner.
pub open spec fn transfer_start(claim_data: ClaimsView, new_owner_id: i32) -> StepView {
    StepView::Ask {
        query: QueryView::UserById { user_id: new_owner_id, user_type: None },
        flow: FlowView::TransferTarget { user_id: claim_data.user_id, new_owner_id },
    }
}

/// Handing over, once the store has looked for the new owner: they must
/// exist and be a coach.
pub open spec fn transfer_on_target(user_id: i32, new_owner_id: i32, reply: ReplyView) -> StepView {
    match reply {
        ReplyView::User(Some(target)) => if target.user_type == "C"@ {
            StepView::Ask {
                query: QueryView::MemberByUser { user_id },
                flow: FlowView::TransferMembership { user_id, new_owner_id },
            }
        } else {
            refused(422, "New owner must be a coach"@)
        },
        ReplyView::User(None) => refused(422, "New owner must be a coach"@),
        _ => failure(reply),
    }
}

/// Handing over, once the caller's membership is known: the store is
/// asked for the club.
pub open spec fn transfer_on_membership(
    user_id: i32,
    new_owner_id: i32,
    reply: ReplyView,
) -> StepView {
    match reply {
        ReplyView::Member(Some(member)) => StepView::Ask {
            query: QueryView::ClubById { club_id: member.club_id },
            flow: FlowView::TransferClub { user_id, new_owner_id },
        },
        ReplyView::Member(None) => not_owner(),
        _ => failure(reply),
    }
}

/// Handing over, once the club is known: only its owner may go on; the
/// store is then asked for the new owner's membership.
pub open spec fn transfer_on_club(user_id: i32, new_owner_id: i32, reply: ReplyView) -> StepView {
    match reply {
        ReplyView::Club(Some(club)) => if club.owner_id == user_id {
            StepView::Ask {
                query: QueryView::MemberByUser { user_id: new_owner_id },
                flow: FlowView::TransferTargetMembership { club_id: club.club_id, new_owner_id },
            }
        } else {
            not_owner()
        },
        ReplyView::Club(None) => not_owner(),
        _ => failure(reply),
    }
}

/// Handing over, once the new owner's membership is known: it must be in
/// the caller's club.
pub open spec fn transfer_on_target_membership(
    club_id: i32,
    new_owner_id: i32,
    reply: ReplyView,
) -> StepView {
    match reply {
        ReplyView::Member(Some(member)) => if member.club_id == club_id {
            StepView::Ask {
                query: QueryView::UpdateClubOwner { club_id, owner_id: new_owner_id },
                flow: FlowView::TransferWrite,
            }
        } else {
            refused(403, "The new owner is not a member of the club"@)
        },
        ReplyView::Member(None) => refused(403, "The new owner is not a member of the club"@),
        _ => failure(reply),
    }
}

/// Handing over, once the new owner is stored.
pub open spec fn transfer_on_write(reply: ReplyView) -> StepView {
    match reply {
        ReplyView::Club(Some(_)) => accepted("Club owner updated successfully"@),
        _ => failure(reply),
    }
}

/// Begins handing the caller's club over to another coach.
pub fn begin_transfer_ownership(claim_data: &Claims, new_owner_id: i32) -> (step: Step)
    ensures
        step@ == transfer_start(claim_data@, new_owner_id),
{
    Step::Ask {
        query: Query::UserById { user_id: new_owner_id, user_type: None },
        flow: Flow::TransferTarget { user_id: claim_data.user_id, new_owner_id },
    }
}

/// Goes on handing over with the store's word on the new owner.
pub fn transfer_target(user_id: i32, new_owner_id: i32, reply: Reply) -> (step: Step)
    ensures
        step@ == transfer_on_target(user_id, new_owner_id, reply@),
{
    match reply {
        Reply::User(Some(target)) => {
            if same_text(target.user_type.as_str(), "C") {
                Step::Ask {
                    query: Query::MemberByUser { user_id },
                    flow: Flow::TransferMembership { user_id, new_owner_id },
                }
            } else {
                refuse(422, "New owner must be a coach")
            }
        },
        Reply::User(None) => refuse(422, "New owner must be a coach"),
        other => fail(other),
    }
}

/// Goes on handing over with the store's word on the caller's membership.
pub fn transfer_membership(user_id: i32, new_owner_id: i32, reply: Reply) -> (step: Step)
    ensures
        step@ == transfer_on_membership(user_id, new_owner_id, reply@),
{
    match reply {
        Reply::Member(Some(member)) => Step::Ask {
            query: Query::ClubById { club_id: member.club_id },
            flow: Flow::TransferClub { user_id, new_owner_id },
        },
        Reply::Member(None) => refuse_not_owner(),
        other => fail(other),
    }
}

/// Goes on handing over with the store's word on the club.
pub fn transfer_club_found(user_id: i32, new_owner_id: i32, reply: Reply) -> (step: Step)
    ensures
        step@ == transfer_on_club(user_id, new_owner_id, reply@),
{
    match reply {
        Reply::Club(Some(club)) => {
            if club.owner_id == user_id {
                Step::Ask {
                    query: Query::MemberByUser { user_id: new_owner_id },
                    flow: Flow::TransferTargetMembership { club_id: club.club_id, new_owner_id },
                }
            } else {
                refuse_not_owner()
            }
        },
        Reply::Club(None) => refuse_not_owner(),
        other => fail(other),
    }
}

/// Goes on handing over with the store's word on the new owner's
/// membership.
pub fn transfer_target_membership(club_id: i32, new_owner_id: i32, reply: Reply) -> (step: Step)
    ensures
        step@ == transfer_on_target_membership(club_id, new_owner_id, reply@),
{
    match reply {
        Reply::Member(Some(member)) => {
            if member.club_id == club_id {
                Step::Ask {
                    query: Query::UpdateClubOwner { club_id, owner_id: new_owner_id },
                    flow: Flow::TransferWrite,
                }
            } else {
                refuse(403, "The new owner is not a member of the club")
            }
        },
        Reply::Member(None) => refuse(403, "The new owner is not a member of the club"),
        other => fail(other),
    }
}

/// Ends handing over with the store's word on the write.
pub fn transfer_write(reply: Reply) -> (step: Step)
    ensures
        step@ == transfer_on_write(reply@),
{
    match reply {
        Reply::Club(Some(_)) => accept(String::from_str("Club owner updated successfully")),
        other => fail(other),
    }
}

/// What founding a club makes of a store. The caller must be a coach
/// (else 404), must not be in a club (else 409), and the name, folded to
/// lower case, must not be taken (else 409); a store that has no id left
/// answers with an internal error (500). None of these changes the store.
/// Otherwise the club is added under the next id and the folded name with
/// the caller as its owner, together with the caller's membership, and the
/// response reports both.
pub open spec fn create_outcome(s: State, claim_data: ClaimsView, club_name: Seq<char>) -> (
    State,
    OutcomeView,
) {
    if s.coach(claim_data.user_id) is None {
        (s, Err(response(404, "Coach account not found for that email"@)))
    } else if s.membership_of(claim_data.user_id) is Some {
        (s, Err(response(409, "Users cannot be part of two clubs at once"@)))
    } else if s.club_named(lowercase(club_name)) is Some {
        (
            s,
            Err(
                response(409, "A club with that name already exists. Please try a different name"@),
            ),
        )
    } else if s.club_ids >= i32::MAX || s.member_ids >= i32::MAX {
        (s, Err(response(500, no_id_left())))
    } else {
        let club = club::Row {
            club_id: (s.club_ids + 1) as i32,
            name: lowercase(club_name),
            owner_id: claim_data.user_id,
        };
        let member = club_member::Model {
            club_member_id: (s.member_ids + 1) as i32,
            user_id: claim_data.user_id,
            club_id: club.club_id,
        };
        (
            s.insert_club(lowercase(club_name), claim_data.user_id).0,
            Ok(response(200, founded_text(club, member))),
        )
    }
}

/// Run against a store, the conversation that `begin_create_club` opens
/// does what `create_outcome` says.
pub proof fn lemma_create_runs(
    secret: Seq<char>,
    s: State,
    claim_data: ClaimsView,
    club_name: Seq<char>,
)
    ensures
        run(secret, s, create_start(claim_data, club_name)) == create_outcome(
            s,
            claim_data,
            club_name,
        ),
{
    reveal_with_fuel(run, 5);
    let user_id = claim_data.user_id;
    lemma_position(s.users, user_with_id(user_id, Some("C"@)));
    lemma_position(s.users, user_with_id(user_id, None));
    if s.coach(user_id) is Some {
        let at = position(s.users, user_with_id(user_id, Some("C"@)));
        assert(user_with_id(user_id, None)(s.users[at]));
    }
}

/// Founds a club of this name for the caller.
pub fn create_club(db: &mut Database, claim_data: Claims, club_name: String) -> (outcome: Result<
    ApiResponse,
    ApiResponse,
>)
    ensures
        (final(db)@, outcome_of(outcome)) == create_outcome(old(db)@, claim_data@, club_name@),
        old(db)@.wf() ==> final(db)@.wf(),
{
    proof {
        lemma_create_runs(""@, db@, claim_data@, club_name@);
    }
    serve(db, "", begin_create_club(&claim_data, club_name))
}

/// What deleting a club makes of a store. A caller who does not own the
/// club they are in is refused (401), and the store is left as it is.
/// Otherwise the club is removed, and with it every membership in it.
pub open spec fn delete_outcome(s: State, claim_data: ClaimsView) -> (State, OutcomeView) {
    match s.owned_club(claim_data.user_id) {
        None => (s, Err(response(401, "User is not the owner of this club"@))),
        Some(club) => (
            s.delete_club(club.club_id).0,
            Ok(response(200, "Club deleted successfully"@)),
        ),
    }
}

/// A club that a lookup by id found is at a position of the table.
proof fn lemma_club_is_there(s: State, club_id: i32)
    requires
        s.club(club_id) is Some,
    ensures
        position(s.clubs, club_with_id(s.club(club_id)->0.club_id)) < s.clubs.len(),
        s.club(club_id)->0.club_id == club_id,
{
    lemma_position(s.clubs, club_with_id(club_id));
}

/// Run against a store, the conversation that `begin_delete_club` opens
/// does what `delete_outcome` says.
pub proof fn lemma_delete_runs(secret: Seq<char>, s: State, claim_data: ClaimsView)
    ensures
        run(secret, s, delete_start(claim_data)) == delete_outcome(s, claim_data),
{
    reveal_with_fuel(run, 4);
    match s.membership_of(claim_data.user_id) {
        Some(member) => {
            if s.club(member.club_id) is Some {
                lemma_club_is_there(s, member.club_id);
            }
        },
        None => {},
    }
}

/// Deletes the club that the caller owns.
pub fn delete_club(db: &mut Database, claim_data: Claims) -> (outcome: Result<
    ApiResponse,
    ApiResponse,
>)
    ensures
        (final(db)@, outcome_of(outcome)) == delete_outcome(old(db)@, claim_data@),
        old(db)@.wf() ==> final(db)@.wf(),
{
    proof {
        lemma_delete_runs(""@, db@, claim_data@);
    }
    serve(db, "", begin_delete_club(&claim_data))
}

/// Whether a user may take a club over: they exist and are a coach.
pub open spec fn can_own(s: State, user_id: i32) -> bool {
    s.user(user_id) matches Some(user) && user.user_type == "C"@
}

/// Whether a user is a member of the club with this id.
pub open spec fn is_member_of(s: State, user_id: i32, club_id: i32) -> bool {
    s.membership_of(user_id) matches Some(member) && member.club_id == club_id
}

/// What handing a club over makes of a store. The new owner must be a
/// coach (else 422), the caller must own the club they are in (else 401),
/// and the new owner must be a member of that club (else 403); a refusal
/// leaves the store as it is. Otherwise the new owner is stored with the
/// club.
pub open spec fn transfer_outcome(s: State, claim_data: ClaimsView, new_owner_id: i32) -> (
    State,
    OutcomeView,
) {
    if !can_own(s, new_owner_id) {
        (s, Err(response(422, "New owner must be a coach"@)))
    } else {
        match s.owned_club(claim_data.user_id) {
            None => (s, Err(response(401, "User is not the owner of this club"@))),
            Some(club) => if !is_member_of(s, new_owner_id, club.club_id) {
                (s, Err(response(403, "The new owner is not a member of the club"@)))
            } else {
                (
                    s.update_club_owner(club.club_id, new_owner_id).0,
                    Ok(response(200, "Club owner updated successfully"@)),
                )
            },
        }
    }
}

/// Run against a store, the conversation that `begin_transfer_ownership`
/// opens does what `transfer_outcome` says.
pub proof fn lemma_transfer_runs(
    secret: Seq<char>,
    s: State,
    claim_data: ClaimsView,
    new_owner_id: i32,
)
    ensures
        run(secret, s, transfer_start(claim_data, new_owner_id)) == transfer_outcome(
            s,
            claim_data,
            new_owner_id,
        ),
{
    reveal_with_fuel(run, 6);
    match s.membership_of(claim_data.user_id) {
        Some(member) => {
            if s.club(member.club_id) is Some {
                lemma_club_is_there(s, member.club_id);
            }
        },
        None => {},
    }
}

/// Hands the caller's club over to another coach in it.
pub fn transfer_ownership(db: &mut Database, claim_data: Claims, new_owner_id: i32) -> (outcome:
    Result<ApiResponse, ApiResponse>)
    ensures
        (final(db)@, outcome_of(outcome)) == transfer_outcome(old(db)@, claim_data@, new_owner_id),
        old(db)@.wf() ==> final(db)@.wf(),
{
    proof {
        lemma_transfer_runs(""@, db@, claim_data@, new_owner_id);
    }
    serve(db, "", begin_transfer_ownership(&claim_data, new_owner_id))
}

/// What a lookup of one club comes to: the club, a refusal (404) when
/// there is none, or an internal error (500) when the store failed.
pub open spec fn club_found(reply: ReplyView) -> Result<club::Row, ResponseView> {
    match reply {
        ReplyView::Club(Some(club)) => Ok(club),
        ReplyView::Club(None) => Err(response(404, "No club found with that club_id"@)),
        ReplyView::Failed(reason) => Err(response(500, reason)),
        _ => Err(response(500, unexpected_reply())),
    }
}

/// The view of a club or a refusal.
pub open spec fn club_or_refusal(result: Result<club::Model, ApiResponse>) -> Result<
    club::Row,
    ResponseView,
> {
    match result {
        Ok(club) => Ok(club@),
        Err(refusal) => Err(refusal@),
    }
}

/// Reads the store's reply to a lookup of one club.
pub fn read_club(reply: Reply) -> (result: Result<club::Model, ApiResponse>)
    ensures
        club_or_refusal(result) == club_found(reply@),
{
    match reply {
        Reply::Club(Some(club)) => Ok(club),
        Reply::Club(None) => Err(
            ApiResponse {
                status_code: 404,
                body: String::from_str("No club found with that club_id"),
            },
        ),
        Reply::Failed(reason) => Err(ApiResponse { status_code: 500, body: reason }),
        _ => Err(
            ApiResponse {
                status_code: 500,
                body: String::from_str("unexpected reply from the store"),
            },
        ),
    }
}

/// The club with this id: found in the store, or refused (404).
pub fn get_club_by_id(db: &mut Database, club_id: i32) -> (result: Result<club::Model, ApiResponse>)
    ensures
        final(db)@ == old(db)@,
        club_or_refusal(result) == (match old(db)@.club(club_id) {
            Some(club) => Ok(club),
            None => Err(response(404, "No club found with that club_id"@)),
        }),
{
    read_club(db.perform(Query::ClubById { club_id }))
}

/// The view of a yes or no, or a refusal.
pub open spec fn flag_or_refusal(result: Result<bool, ApiResponse>) -> Result<bool, ResponseView> {
    match result {
        Ok(flag) => Ok(flag),
        Err(refusal) => Err(refusal@),
    }
}

/// Whether this user owns the club with this id, or a refusal (404) when
/// there is no such club.
pub open spec fn owner_check(s: State, user_id: i32, club_id: i32) -> Result<bool, ResponseView> {
    match s.club(club_id) {
        Some(club) => Ok(club.owner_id == user_id),
        None => Err(response(404, "No club found with that club_id"@)),
    }
}

/// Whether this user owns the club with this id; refused (404) when there
/// is no such club. The store is only read.
pub fn is_owner(db: &mut Database, user_id: i32, club_id: i32) -> (result: Result<
    bool,
    ApiResponse,
>)
    ensures
        final(db)@ == old(db)@,
        flag_or_refusal(result) == owner_check(old(db)@, user_id, club_id),
{
    match get_club_by_id(db, club_id) {
        Ok(club) => Ok(club.owner_id == user_id),
        Err(refusal) => Err(refusal),
    }
}

/// What looking for the club that a user owns comes to: a user without a
/// membership is refused (404), and so is one whose club is not there
/// (404); a member of a club that another user owns is refused (401);
/// the owner is handed the club.
pub open spec fn owned_club_found(s: State, user_id: i32) -> Result<club::Row, ResponseView> {
    match s.membership_of(user_id) {
        None => Err(response(404, "No club found for user"@)),
        Some(member) => match s.club(member.club_id) {
            None => Err(response(404, "No club found with that club_id"@)),
            Some(club) => if club.owner_id == user_id {
                Ok(club)
            } else {
                Err(response(401, "User is not the owner of this club"@))
            },
        },
    }
}

/// The club that this user is in and owns, or the refusal that
/// `owned_club_found` names. The store is only read.
pub fn get_club_if_owner(db: &mut Database, user_id: i32) -> (result: Result<
    club::Model,
    ApiResponse,
>)
    ensures
        final(db)@ == old(db)@,
        club_or_refusal(result) == owned_club_found(old(db)@, user_id),
{
    let member = match read_member(db.perform(Query::MemberByUser { user_id })) {
        Ok(member) => member,
        Err(refusal) => {
            return Err(refusal);
        },
    };
    let club = match get_club_by_id(db, member.club_id) {
        Ok(club) => club,
        Err(refusal) => {
            return Err(refusal);
        },
    };
    if club.owner_id == user_id {
        Ok(club)
    } else {
        Err(
            ApiResponse {
                status_code: 401,
                body: String::from_str("User is not the owner of this club"),
            },
        )
    }
}

} // verus!
