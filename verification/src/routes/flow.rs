//! An operation as a conversation with the store.
//!
//! An operation never touches the store itself. It takes one `Step` at a
//! time: either it asks a query and says where it stands (`Flow`), or it is
//! done and hands back its response. Whoever holds the store carries out the
//! query and hands the reply to `resume`.

use vstd::prelude::*;
use crate::store::query::{Query, QueryView, Reply, ReplyView};
use crate::utils::api_response::{outcome_of, response, ApiResponse, OutcomeView};
use crate::utils::request_models::auth_models::{RegisterModel, RegisterView};
use crate::utils::request_models::user_models::{UpdateUserModel, UpdateUserView};

verus! {

/// Where an operation stands while it waits for the store's reply: which
/// reply it waits for, and what it has to remember.
#[allow(inconsistent_fields)]
#[derive(Debug, PartialEq, Eq)]
pub enum Flow {
    /// Registering: is the email taken under this type?
    RegisterLookup { json: RegisterModel },
    /// Registering: the new user is being added.
    RegisterInsert,
    /// Logging in at time `now`: who holds these credentials?
    LoginLookup { now: usize },
    /// Updating a profile: does the user exist?
    UpdateLookup { user_data: UpdateUserModel },
    /// Updating a profile: the new values are being stored.
    UpdateWrite,
    /// Resetting a password: what is the stored digest?
    ResetLookup { old_pass: String, new_pass: String },
    /// Resetting a password: the new digest is being stored.
    ResetWrite,
    /// Showing a user.
    GetUserLookup,
    /// Showing the club of `caller`: which club are they in?
    UserClubMembership { caller: i32 },
    /// Showing the club of `caller`: what is that club?
    UserClubClub { caller: i32 },
    /// Showing a club.
    GetClubLookup,
    /// Founding a club: is the caller a coach?
    CreateCoach { user_id: i32, name: String },
    /// Founding a club: is the caller in a club already?
    CreateMembership { user_id: i32, name: String },
    /// Founding a club: is the name taken?
    CreateName { user_id: i32, name: String },
    /// Founding a club: club and membership are being added.
    CreateInsert,
    /// Leaving: which club is the caller in?
    LeaveMembership { user_id: i32 },
    /// Leaving: who owns that club?
    LeaveClub { user_id: i32, club_member_id: i32 },
    /// Leaving: the membership is being removed.
    LeaveDelete,
    /// Joining: does the club exist?
    JoinClub { user_id: i32 },
    /// Joining: is the caller in a club already?
    JoinMembership { user_id: i32, club_id: i32 },
    /// Joining: the membership is being added.
    JoinInsert,
    /// Deleting a club: which club is the caller in?
    DeleteMembership { user_id: i32 },
    /// Deleting a club: does the caller own it?
    DeleteClub { user_id: i32 },
    /// Deleting a club: the club is being removed.
    DeleteWrite,
    /// Handing a club over: is the new owner a coach?
    TransferTarget { user_id: i32, new_owner_id: i32 },
    /// Handing a club over: which club is the caller in?
    TransferMembership { user_id: i32, new_owner_id: i32 },
    /// Handing a club over: does the caller own it?
    TransferClub { user_id: i32, new_owner_id: i32 },
    /// Handing a club over: is the new owner in that club?
    TransferTargetMembership { club_id: i32, new_owner_id: i32 },
    /// Handing a club over: the new owner is being stored.
    TransferWrite,
    /// Checking that the store answers.
    PingCount,
}

/// `Flow` as a mathematical value.
#[allow(inconsistent_fields)]
pub enum FlowView {
    RegisterLookup { json: RegisterView },
    RegisterInsert,
    LoginLookup { now: usize },
    UpdateLookup { user_data: UpdateUserView },
    UpdateWrite,
    ResetLookup { old_pass: Seq<char>, new_pass: Seq<char> },
    ResetWrite,
    GetUserLookup,
    UserClubMembership { caller: i32 },
    UserClubClub { caller: i32 },
    GetClubLookup,
    CreateCoach { user_id: i32, name: Seq<char> },
    CreateMembership { user_id: i32, name: Seq<char> },
    CreateName { user_id: i32, name: Seq<char> },
    CreateInsert,
    LeaveMembership { user_id: i32 },
    LeaveClub { user_id: i32, club_member_id: i32 },
    LeaveDelete,
    JoinClub { user_id: i32 },
    JoinMembership { user_id: i32, club_id: i32 },
    JoinInsert,
    DeleteMembership { user_id: i32 },
    DeleteClub { user_id: i32 },
    DeleteWrite,
    TransferTarget { user_id: i32, new_owner_id: i32 },
    TransferMembership { user_id: i32, new_owner_id: i32 },
    TransferClub { user_id: i32, new_owner_id: i32 },
    TransferTargetMembership { club_id: i32, new_owner_id: i32 },
    TransferWrite,
    PingCount,
}

impl View for Flow {
    type V = FlowView;

    open spec fn view(&self) -> FlowView {
        match *self {
            Flow::RegisterLookup { json } => FlowView::RegisterLookup { json: json@ },
            Flow::RegisterInsert => FlowView::RegisterInsert,
            Flow::LoginLookup { now } => FlowView::LoginLookup { now },
            Flow::UpdateLookup { user_data } => FlowView::UpdateLookup { user_data: user_data@ },
            Flow::UpdateWrite => FlowView::UpdateWrite,
            Flow::ResetLookup { old_pass, new_pass } => FlowView::ResetLookup {
                old_pass: old_pass@,
                new_pass: new_pass@,
            },
            Flow::ResetWrite => FlowView::ResetWrite,
            Flow::GetUserLookup => FlowView::GetUserLookup,
            Flow::UserClubMembership { caller } => FlowView::UserClubMembership { caller },
            Flow::UserClubClub { caller } => FlowView::UserClubClub { caller },
            Flow::GetClubLookup => FlowView::GetClubLookup,
            Flow::CreateCoach { user_id, name } => FlowView::CreateCoach { user_id, name: name@ },
            Flow::CreateMembership { user_id, name } => FlowView::CreateMembership {
                user_id,
                name: name@,
            },
            Flow::CreateName { user_id, name } => FlowView::CreateName { user_id, name: name@ },
            Flow::CreateInsert => FlowView::CreateInsert,
            Flow::LeaveMembership { user_id } => FlowView::LeaveMembership { user_id },
            Flow::LeaveClub { user_id, club_member_id } => FlowView::LeaveClub {
                user_id,
                club_member_id,
            },
            Flow::LeaveDelete => FlowView::LeaveDelete,
            Flow::JoinClub { user_id } => FlowView::JoinClub { user_id },
            Flow::JoinMembership { user_id, club_id } => FlowView::JoinMembership {
                user_id,
                club_id,
            },
            Flow::JoinInsert => FlowView::JoinInsert,
            Flow::DeleteMembership { user_id } => FlowView::DeleteMembership { user_id },
            Flow::DeleteClub { user_id } => FlowView::DeleteClub { user_id },
            Flow::DeleteWrite => FlowView::DeleteWrite,
            Flow::TransferTarget { user_id, new_owner_id } => FlowView::TransferTarget {
                user_id,
                new_owner_id,
            },
            Flow::TransferMembership { user_id, new_owner_id } => FlowView::TransferMembership {
                user_id,
                new_owner_id,
            },
            Flow::TransferClub { user_id, new_owner_id } => FlowView::TransferClub {
                user_id,
                new_owner_id,
            },
            Flow::TransferTargetMembership {
                club_id,
                new_owner_id,
            } => FlowView::TransferTargetMembership { club_id, new_owner_id },
            Flow::TransferWrite => FlowView::TransferWrite,
            Flow::PingCount => FlowView::PingCount,
        }
    }
}

/// What an operation does next.
#[derive(Debug, PartialEq, Eq)]
pub enum Step {
    /// Carry out `query` and hand the reply, with `flow`, to `resume`.
    Ask { query: Query, flow: Flow },
    /// The operation is over; this is its response.
    Done(Result<ApiResponse, ApiResponse>),
}

/// `Step` as a mathematical value.
pub enum StepView {
    Ask { query: QueryView, flow: FlowView },
    Done(OutcomeView),
}

impl View for Step {
    type V = StepView;

    open spec fn view(&self) -> StepView {
        match *self {
            Step::Ask { query, flow } => StepView::Ask { query: query@, flow: flow@ },
            Step::Done(outcome) => StepView::Done(outcome_of(outcome)),
        }
    }
}

/// The step that ends an operation by refusing the request.
pub open spec fn refused(status_code: u16, body: Seq<char>) -> StepView {
    StepView::Done(Err(response(status_code, body)))
}

/// The step that ends an operation with the request carried out.
pub open spec fn accepted(body: Seq<char>) -> StepView {
    StepView::Done(Ok(response(200, body)))
}

/// What an operation says when the store hands it a reply of a kind that
/// its query cannot have.
pub open spec fn unexpected_reply() -> Seq<char> {
    "unexpected reply from the store"@
}

/// The step that ends an operation whose query was not answered as
/// expected: an internal error with the store's reason, if it gave one.
pub open spec fn failure(reply: ReplyView) -> StepView {
    match reply {
        ReplyView::Failed(reason) => refused(500, reason),
        _ => refused(500, unexpected_reply()),
    }
}

/// Ends an operation by refusing the request.
pub fn refuse(status_code: u16, body: &str) -> (step: Step)
    ensures
        step@ == refused(status_code, body@),
{
    Step::Done(Err(ApiResponse { status_code, body: String::from_str(body) }))
}

/// Ends an operation with the request carried out.
pub fn accept(body: String) -> (step: Step)
    ensures
        step@ == accepted(body@),
{
    Step::Done(Ok(ApiResponse { status_code: 200, body }))
}

/// Ends an operation whose query was not answered as expected.
pub fn fail(reply: Reply) -> (step: Step)
    ensures
        step@ == failure(reply@),
{
    match reply {
        Reply::Failed(reason) => Step::Done(Err(ApiResponse { status_code: 500, body: reason })),
        _ => refuse(500, "unexpected reply from the store"),
    }
}

} // verus!
