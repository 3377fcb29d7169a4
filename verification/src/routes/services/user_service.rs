//! Reading and changing the caller's own account.

use vstd::prelude::*;
use crate::entities::user;
use crate::routes::conversation::{run, serve, stored};
use crate::routes::flow::{accept, accepted, fail, failure, refuse, refused, unexpected_reply, Flow, FlowView, Step, StepView};
use crate::store::database::Database;
use crate::store::query::{Query, QueryView, Reply, ReplyView};
use crate::store::search::first_match;
use crate::store::state::{user_with_id, State};
use crate::utils::api_response::{outcome_of, response, ApiResponse, OutcomeView, ResponseView};
use crate::utils::jwt::{Claims, ClaimsView};
use crate::utils::password::{digest, sha256_hex};
use crate::utils::request_models::user_models::{UpdateUserModel, UpdateUserView};
use crate::utils::text::{text_of, trim, trimmed};

verus! {

/// How updating a profile begins: the store is asked for the caller.
pub open spec fn update_start(claim_data: ClaimsView, user_data: UpdateUserView) -> StepView {
    StepView::Ask {
        query: QueryView::UserById { user_id: claim_data.user_id, user_type: None },
        flow: FlowView::UpdateLookup { user_data },
    }
}

/// Updating a profile, once the store has looked for the caller: the
/// fields that were sent are stored, the others stay.
pub open spec fn update_on_lookup(user_data: UpdateUserView, reply: ReplyView) -> StepView {
    match reply {
        ReplyView::User(Some(user)) => StepView::Ask {
            query: QueryView::UpdateUser {
                user_id: user.user_id,
                name_first: user_data.name_first,
                name_last: user_data.name_last,
                email: user_data.email,
                password: None,
            },
            flow: FlowView::UpdateWrite,
        },
        ReplyView::User(None) => refused(404, "User not found"@),
        _ => failure(reply),
    }
}

/// Updating a profile, once the new values are stored.
pub open spec fn update_on_write(reply: ReplyView) -> StepView {
    match reply {
        ReplyView::User(Some(_)) => accepted("User updated!"@),
        _ => failure(reply),
    }
}

/// Begins updating the caller's profile.
pub fn begin_update_user(claim_data: &Claims, user_data: UpdateUserModel) -> (step: Step)
    ensures
        step@ == update_start(claim_data@, user_data@),
{
    Step::Ask {
        query: Query::UserById { user_id: claim_data.user_id, user_type: None },
        flow: Flow::UpdateLookup { user_data },
    }
}

/// Goes on updating with the store's word on the caller.
pub fn update_lookup(user_data: UpdateUserModel, reply: Reply) -> (step: Step)
    ensures
        step@ == update_on_lookup(user_data@, reply@),
{
    match reply {
        Reply::User(Some(user)) => Step::Ask {
            query: Query::UpdateUser {
                user_id: user.user_id,
                name_first: user_data.name_first,
                name_last: user_data.name_last,
                email: user_data.email,
                password: None,
            },
            flow: Flow::UpdateWrite,
        },
        Reply::User(None) => refuse(404, "User not found"),
        other => fail(other),
    }
}

/// Ends updating with the store's word on the write.
pub fn update_write(reply: Reply) -> (step: Step)
    ensures
        step@ == update_on_write(reply@),
{
    match reply {
        Reply::User(Some(_)) => accept(String::from_str("User updated!")),
        other => fail(other),
    }
}

/// How resetting a password begins: the store is asked for the caller.
pub open spec fn reset_start(
    claim_data: ClaimsView,
    old_pass: Seq<char>,
    new_pass: Seq<char>,
) -> StepView {
    StepView::Ask {
        query: QueryView::UserById { user_id: claim_data.user_id, user_type: None },
        flow: FlowView::ResetLookup { old_pass, new_pass },
    }
}

/// What becomes of a password reset, given the digests of the old and of
/// the new password: the old one must be the stored digest; the new one
/// then replaces it.
pub open spec fn reset_decision(
    user: user::Row,
    old_digest: Seq<char>,
    new_digest: Seq<char>,
) -> StepView {
    if user.password != old_digest {
        refused(401, "Password is incorrect"@)
    } else {
        StepView::Ask {
            query: QueryView::UpdateUser {
                user_id: user.user_id,
                name_first: None,
                name_last: None,
                email: None,
                password: Some(new_digest),
            },
            flow: FlowView::ResetWrite,
        }
    }
}

/// Resetting a password, once the store has looked for the caller: the
/// old password must have the stored digest; the digest of the trimmed new
/// password then replaces it.
pub open spec fn reset_on_lookup(
    old_pass: Seq<char>,
    new_pass: Seq<char>,
    reply: ReplyView,
) -> StepView {
    match reply {
        ReplyView::User(Some(user)) => reset_decision(
            user,
            sha256_hex(old_pass),
            sha256_hex(trimmed(new_pass)),
        ),
        ReplyView::User(None) => refused(404, "User not found"@),
        _ => failure(reply),
    }
}

/// Resetting a password, once the new digest is stored.
pub open spec fn reset_on_write(reply: ReplyView) -> StepView {
    match reply {
        ReplyView::User(Some(_)) => accepted("Password successfully changed"@),
        _ => failure(reply),
    }
}

/// Begins replacing the caller's password.
pub fn begin_reset_password(claim_data: &Claims, old_pass: String, new_pass: String) -> (step:
    Step)
    ensures
        step@ == reset_start(claim_data@, old_pass@, new_pass@),
{
    Step::Ask {
        query: Query::UserById { user_id: claim_data.user_id, user_type: None },
        flow: Flow::ResetLookup { old_pass, new_pass },
    }
}

/// Goes on resetting with the store's word on the caller.
pub fn reset_lookup(old_pass: String, new_pass: String, reply: Reply) -> (step: Step)
    ensures
        step@ == reset_on_lookup(old_pass@, new_pass@, reply@),
{
    match reply {
        Reply::User(Some(user)) => {
            let old_digest = digest(old_pass.as_str());
            let new_digest = digest(trim(new_pass.as_str()));
            decide_reset(user, old_digest, new_digest)
        },
        Reply::User(None) => refuse(404, "User not found"),
        other => fail(other),
    }
}

/// Decides a password reset from the digests of the old and of the new
/// password.
pub fn decide_reset(user: user::Model, old_digest: String, new_digest: String) -> (step: Step)
    ensures
        step@ == reset_decision(user@, old_digest@, new_digest@),
{
    if user.password != old_digest {
        return refuse(401, "Password is incorrect");
    }
    Step::Ask {
        query: Query::UpdateUser {
            user_id: user.user_id,
            name_first: None,
            name_last: None,
            email: None,
            password: Some(new_digest),
        },
        flow: Flow::ResetWrite,
    }
}

/// Ends resetting with the store's word on the write.
pub fn reset_write(reply: Reply) -> (step: Step)
    ensures
        step@ == reset_on_write(reply@),
{
    match reply {
        Reply::User(Some(_)) => accept(String::from_str("Password successfully changed")),
        other => fail(other),
    }
}

/// What updating a profile makes of a store. A caller who is not in the
/// store is refused (404). Otherwise the fields that were sent are
/// stored; if the store refuses the write, the response is an internal
/// error with its reason.
pub open spec fn update_outcome(s: State, claim_data: ClaimsView, user_data: UpdateUserView) -> (
    State,
    OutcomeView,
) {
    match s.user(claim_data.user_id) {
        None => (s, Err(response(404, "User not found"@))),
        Some(user) => stored(
            s.update_user(
                user.user_id,
                user_data.name_first,
                user_data.name_last,
                user_data.email,
                None,
            ),
            "User updated!"@,
        ),
    }
}

/// Run against a store, the conversation that `begin_update_user` opens
/// does what `update_outcome` says.
pub proof fn lemma_update_runs(
    secret: Seq<char>,
    s: State,
    claim_data: ClaimsView,
    user_data: UpdateUserView,
)
    ensures
        run(secret, s, update_start(claim_data, user_data)) == update_outcome(
            s,
            claim_data,
            user_data,
        ),
{
    reveal_with_fuel(run, 3);
}

/// Updates the caller's profile in the store.
pub fn update_user(db: &mut Database, user_data: UpdateUserModel, claim_data: Claims) -> (outcome:
    Result<ApiResponse, ApiResponse>)
    ensures
        (final(db)@, outcome_of(outcome)) == update_outcome(old(db)@, claim_data@, user_data@),
        old(db)@.wf() ==> final(db)@.wf(),
{
    proof {
        lemma_update_runs(""@, db@, claim_data@, user_data@);
    }
    serve(db, "", begin_update_user(&claim_data, user_data))
}

/// What resetting a password makes of a store. A caller who is not in the
/// store is refused (404), and so is an old password whose digest is not
/// the stored one (401). Otherwise the digest of the trimmed new password
/// is stored; if the store refuses the write, the response is an internal
/// error with its reason.
pub open spec fn reset_outcome(
    s: State,
    claim_data: ClaimsView,
    old_pass: Seq<char>,
    new_pass: Seq<char>,
) -> (State, OutcomeView) {
    match s.user(claim_data.user_id) {
        None => (s, Err(response(404, "User not found"@))),
        Some(user) => if user.password != sha256_hex(old_pass) {
            (s, Err(response(401, "Password is incorrect"@)))
        } else {
            stored(
                s.update_user(user.user_id, None, None, None, Some(sha256_hex(trimmed(new_pass)))),
                "Password successfully changed"@,
            )
        },
    }
}

/// Run against a store, the conversation that `begin_reset_password`
/// opens does what `reset_outcome` says.
pub proof fn lemma_reset_runs(
    secret: Seq<char>,
    s: State,
    claim_data: ClaimsView,
    old_pass: Seq<char>,
    new_pass: Seq<char>,
)
    ensures
        run(secret, s, reset_start(claim_data, old_pass, new_pass)) == reset_outcome(
            s,
            claim_data,
            old_pass,
            new_pass,
        ),
{
    reveal_with_fuel(run, 3);
}

/// Replaces the caller's password in the store.
pub fn reset_password(
    db: &mut Database,
    claim_data: Claims,
    old_pass: String,
    new_pass: String,
) -> (outcome: Result<ApiResponse, ApiResponse>)
    ensures
        (final(db)@, outcome_of(outcome)) == reset_outcome(
            old(db)@,
            claim_data@,
            old_pass@,
            new_pass@,
        ),
        old(db)@.wf() ==> final(db)@.wf(),
{
    proof {
        lemma_reset_runs(""@, db@, claim_data@, old_pass@, new_pass@);
    }
    serve(db, "", begin_reset_password(&claim_data, old_pass, new_pass))
}

/// Which user to look for: the one with this id and, where a type is
/// given, of this type.
#[derive(Debug, PartialEq, Eq)]
pub struct UserFilter {
    pub user_id: i32,
    pub user_type: Option<String>,
}

/// What a lookup of one user comes to: the user, a refusal (404) when
/// there is none, or an internal error (500) when the store failed.
pub open spec fn user_found(reply: ReplyView) -> Result<user::Row, ResponseView> {
    match reply {
        ReplyView::User(Some(user)) => Ok(user),
        ReplyView::User(None) => Err(response(404, "User not found"@)),
        ReplyView::Failed(reason) => Err(response(500, reason)),
        _ => Err(response(500, unexpected_reply())),
    }
}

/// The view of a user or a refusal.
pub open spec fn user_or_refusal(result: Result<user::Model, ApiResponse>) -> Result<
    user::Row,
    ResponseView,
> {
    match result {
        Ok(user) => Ok(user@),
        Err(refusal) => Err(refusal@),
    }
}

/// Reads the store's reply to a lookup of one user.
pub fn read_user(reply: Reply) -> (result: Result<user::Model, ApiResponse>)
    ensures
        user_or_refusal(result) == user_found(reply@),
{
    match reply {
        Reply::User(Some(user)) => Ok(user),
        Reply::User(None) => Err(
            ApiResponse { status_code: 404, body: String::from_str("User not found") },
        ),
        Reply::Failed(reason) => Err(ApiResponse { status_code: 500, body: reason }),
        _ => Err(
            ApiResponse {
                status_code: 500,
                body: String::from_str("unexpected reply from the store"),
            },
        ),
    }
}

/// The user that the filter names or, without a filter, the caller: found
/// in the store, or refused (404).
pub fn get_user(db: &mut Database, claim_data: &Claims, filters: Option<UserFilter>) -> (result:
    Result<user::Model, ApiResponse>)
    ensures
        final(db)@ == old(db)@,
        user_or_refusal(result) == (match (match filters {
            Some(filter) => first_match(
                old(db)@.users,
                user_with_id(filter.user_id, text_of(filter.user_type)),
            ),
            None => old(db)@.user(claim_data.user_id),
        }) {
            Some(user) => Ok(user),
            None => Err(response(404, "User not found"@)),
        }),
{
    let query = match filters {
        Some(filter) => Query::UserById { user_id: filter.user_id, user_type: filter.user_type },
        None => Query::UserById { user_id: claim_data.user_id, user_type: None },
    };
    read_user(db.perform(query))
}

/// The user with this id: found in the store, or refused (404).
pub fn get_user_by_id(db: &mut Database, user_id: i32) -> (result: Result<user::Model, ApiResponse>)
    ensures
        final(db)@ == old(db)@,
        user_or_refusal(result) == (match old(db)@.user(user_id) {
            Some(user) => Ok(user),
            None => Err(response(404, "User not found"@)),
        }),
{
    read_user(db.perform(Query::UserById { user_id, user_type: None }))
}

} // verus!
