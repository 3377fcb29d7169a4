//! Memberships: looking one up, adding one, leaving a club.

use vstd::prelude::*;
use crate::entities::club_member;
use crate::routes::conversation::{run, serve};
use crate::routes::flow::{accept, accepted, fail, failure, refuse, refused, unexpected_reply, Flow, FlowView, Step, StepView};
use crate::store::database::Database;
use crate::store::query::{Query, QueryView, Reply, ReplyView};
use crate::store::search::{lemma_position, position};
use crate::store::state::{member_of_user, member_with_id, State};
use crate::utils::api_response::{outcome_of, response, ApiResponse, OutcomeView, ResponseView};
use crate::utils::jwt::{Claims, ClaimsView};

verus! {

/// How leaving begins: the store is asked for the caller's membership.
pub open spec fn leave_start(claim_data: ClaimsView) -> StepView {
    StepView::Ask {
        query: QueryView::MemberByUser { user_id: claim_data.user_id },
        flow: FlowView::LeaveMembership { user_id: claim_data.user_id },
    }
}

/// Leaving, once the membership is known: the store is asked for the club.
pub open spec fn leave_on_membership(user_id: i32, reply: ReplyView) -> StepView {
    match reply {
        ReplyView::Member(Some(member)) => StepView::Ask {
            query: QueryView::ClubById { club_id: member.club_id },
            flow: FlowView::LeaveClub { user_id, club_member_id: member.club_member_id },
        },
        ReplyView::Member(None) => refused(404, "No club found for user"@),
        _ => failure(reply),
    }
}

/// Leaving, once the club is known: its owner may not leave; anyone else's
/// membership is removed.
pub open spec fn leave_on_club(user_id: i32, club_member_id: i32, reply: ReplyView) -> StepView {
    match reply {
        ReplyView::Club(Some(club)) => if club.owner_id == user_id {
            refused(409, "User cannot leave the club if they are the owner"@)
        } else {
            StepView::Ask {
                query: QueryView::DeleteMember { club_member_id },
                flow: FlowView::LeaveDelete,
            }
        },
        ReplyView::Club(None) => refused(404, "No club found with that club_id"@),
        _ => failure(reply),
    }
}

/// Leaving, once the store has removed rows: exactly one must be gone.
pub open spec fn leave_on_delete(reply: ReplyView) -> StepView {
    match reply {
        ReplyView::Rows(count) => if count == 1 {
            accepted("Successfully left club"@)
        } else {
            refused(500, "Could not leave club"@)
        },
        _ => failure(reply),
    }
}

/// Begins taking the caller out of their club.
pub fn begin_leave_club(claim_data: &Claims) -> (step: Step)
    ensures
        step@ == leave_start(claim_data@),
{
    Step::Ask {
        query: Query::MemberByUser { user_id: claim_data.user_id },
        flow: Flow::LeaveMembership { user_id: claim_data.user_id },
    }
}

/// Goes on leaving with the store's word on the caller's membership.
pub fn leave_membership(user_id: i32, reply: Reply) -> (step: Step)
    ensures
        step@ == leave_on_membership(user_id, reply@),
{
    match reply {
        Reply::Member(Some(member)) => Step::Ask {
            query: Query::ClubById { club_id: member.club_id },
            flow: Flow::LeaveClub { user_id, club_member_id: member.club_member_id },
        },
        Reply::Member(None) => refuse(404, "No club found for user"),
        other => fail(other),
    }
}

/// Goes on leaving with the store's word on the club.
pub fn leave_club_found(user_id: i32, club_member_id: i32, reply: Reply) -> (step: Step)
    ensures
        step@ == leave_on_club(user_id, club_member_id, reply@),
{
    match reply {
        Reply::Club(Some(club)) => {
            if club.owner_id == user_id {
                return refuse(409, "User cannot leave the club if they are the owner");
            }
            Step::Ask { query: Query::DeleteMember { club_member_id }, flow: Flow::LeaveDelete }
        },
        Reply::Club(None) => refuse(404, "No club found with that club_id"),
        other => fail(other),
    }
}

/// Ends leaving with the store's count of removed rows.
pub fn leave_delete(reply: Reply) -> (step: Step)
    ensures
        step@ == leave_on_delete(reply@),
{
    match reply {
        Reply::Rows(count) => {
            if count == 1 {
                accept(String::from_str("Successfully left club"))
            } else {
                refuse(500, "Could not leave club")
            }
        },
        other => fail(other),
    }
}

/// What leaving makes of a store. A caller without a membership is
/// refused (404), and so is the owner of the club (409); neither changes
/// the store. Anyone else's membership is removed.
pub open spec fn leave_outcome(s: State, claim_data: ClaimsView) -> (State, OutcomeView) {
    match s.membership_of(claim_data.user_id) {
        None => (s, Err(response(404, "No club found for user"@))),
        Some(member) => match s.club(member.club_id) {
            None => (s, Err(response(404, "No club found with that club_id"@))),
            Some(club) => if club.owner_id == claim_data.user_id {
                (s, Err(response(409, "User cannot leave the club if they are the owner"@)))
            } else {
                (
                    s.delete_member(member.club_member_id).0,
                    Ok(response(200, "Successfully left club"@)),
                )
            },
        },
    }
}

/// Run against a store, the conversation that `begin_leave_club` opens
/// does what `leave_outcome` says.
pub proof fn lemma_leave_runs(secret: Seq<char>, s: State, claim_data: ClaimsView)
    ensures
        run(secret, s, leave_start(claim_data)) == leave_outcome(s, claim_data),
{
    reveal_with_fuel(run, 4);
    lemma_position(s.members, member_of_user(claim_data.user_id));
    match s.membership_of(claim_data.user_id) {
        Some(member) => {
            let at = position(s.members, member_of_user(claim_data.user_id));
            assert(member_with_id(member.club_member_id)(s.members[at]));
            lemma_position(s.members, member_with_id(member.club_member_id));
        },
        None => {},
    }
}

/// Takes the caller out of their club.
pub fn leave_club(db: &mut Database, claim_data: Claims) -> (outcome: Result<
    ApiResponse,
    ApiResponse,
>)
    ensures
        (final(db)@, outcome_of(outcome)) == leave_outcome(old(db)@, claim_data@),
        old(db)@.wf() ==> final(db)@.wf(),
{
    proof {
        lemma_leave_runs(""@, db@, claim_data@);
    }
    serve(db, "", begin_leave_club(&claim_data))
}

/// What a lookup of one membership comes to: the membership, a refusal
/// (404) when there is none, or an internal error (500) when the store
/// failed.
pub open spec fn member_found(reply: ReplyView) -> Result<club_member::Model, ResponseView> {
    match reply {
        ReplyView::Member(Some(member)) => Ok(member),
        ReplyView::Member(None) => Err(response(404, "No club found for user"@)),
        ReplyView::Failed(reason) => Err(response(500, reason)),
        _ => Err(response(500, unexpected_reply())),
    }
}

/// The view of a membership or a refusal.
pub open spec fn member_or_refusal(result: Result<club_member::Model, ApiResponse>) -> Result<
    club_member::Model,
    ResponseView,
> {
    match result {
        Ok(member) => Ok(member),
        Err(refusal) => Err(refusal@),
    }
}

/// Reads the store's reply to a lookup of one membership.
pub fn read_member(reply: Reply) -> (result: Result<club_member::Model, ApiResponse>)
    ensures
        member_or_refusal(result) == member_found(reply@),
{
    match reply {
        Reply::Member(Some(member)) => Ok(member),
        Reply::Member(None) => Err(
            ApiResponse { status_code: 404, body: String::from_str("No club found for user") },
        ),
        Reply::Failed(reason) => Err(ApiResponse { status_code: 500, body: reason }),
        _ => Err(
            ApiResponse {
                status_code: 500,
                body: String::from_str("unexpected reply from the store"),
            },
        ),
    }
}

/// The membership of this user: found in the store, or refused (404).
pub fn get_member_by_user_id(db: &mut Database, user_id: i32) -> (result: Result<
    club_member::Model,
    ApiResponse,
>)
    ensures
        final(db)@ == old(db)@,
        member_or_refusal(result) == (match old(db)@.membership_of(user_id) {
            Some(member) => Ok(member),
            None => Err(response(404, "No club found for user"@)),
        }),
{
    read_member(db.perform(Query::MemberByUser { user_id }))
}

/// What adding a membership makes of a store. A caller who has a
/// membership is refused (409), and the store is left as it is. Otherwise
/// the membership is added under the next id, and handed back; if the
/// store refuses the insertion, the response is an internal error with its
/// reason.
pub open spec fn create_membership_outcome(s: State, claim_data: ClaimsView, club_id: i32) -> (
    State,
    Result<club_member::Model, ResponseView>,
) {
    if s.membership_of(claim_data.user_id) is Some {
        (s, Err(response(409, "User is already a member of a club"@)))
    } else {
        let (after, reply) = s.insert_member(claim_data.user_id, club_id);
        match reply {
            ReplyView::Failed(reason) => (after, Err(response(500, reason))),
            _ => (
                after,
                Ok(
                    club_member::Model {
                        club_member_id: (s.member_ids + 1) as i32,
                        user_id: claim_data.user_id,
                        club_id,
                    },
                ),
            ),
        }
    }
}

/// Adds the caller to the club with this id.
pub fn create_membership(db: &mut Database, claim_data: Claims, club_id: i32) -> (result: Result<
    club_member::Model,
    ApiResponse,
>)
    ensures
        (final(db)@, member_or_refusal(result)) == create_membership_outcome(
            old(db)@,
            claim_data@,
            club_id,
        ),
        old(db)@.wf() ==> final(db)@.wf(),
{
    match db.perform(Query::MemberByUser { user_id: claim_data.user_id }) {
        Reply::Member(Some(_)) => {
            return Err(
                ApiResponse {
                    status_code: 409,
                    body: String::from_str("User is already a member of a club"),
                },
            );
        },
        _ => {},
    }
    match db.perform(Query::InsertMember { user_id: claim_data.user_id, club_id }) {
        Reply::Member(Some(member)) => Ok(member),
        Reply::Failed(reason) => Err(ApiResponse { status_code: 500, body: reason }),
        _ => Err(
            ApiResponse {
                status_code: 500,
                body: String::from_str("unexpected reply from the store"),
            },
        ),
    }
}

} // verus!
