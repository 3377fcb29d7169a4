//! The two requests that need no token: registering and logging in.

use vstd::prelude::*;
use crate::routes::services::auth_service::{login_outcome, login_user, register, register_outcome};
use crate::store::database::Database;
use crate::utils::api_response::{outcome_of, ApiResponse};
pub use crate::utils::request_models::auth_models::{LoginModel, RegisterModel};

verus! {

/// Registers a user.
pub fn register_athlete(db: &mut Database, json: RegisterModel) -> (outcome: Result<
    ApiResponse,
    ApiResponse,
>)
    ensures
        (final(db)@, outcome_of(outcome)) == register_outcome(old(db)@, json@),
        old(db)@.wf() ==> final(db)@.wf(),
{
    register(db, json)
}

/// Logs a user in at time `now`; tokens are signed with `secret`.
pub fn login(db: &mut Database, secret: &str, json: LoginModel, now: usize) -> (outcome: Result<
    ApiResponse,
    ApiResponse,
>)
    ensures
        (final(db)@, outcome_of(outcome)) == login_outcome(old(db)@, secret@, json@, now),
{
    login_user(db, secret, json, now)
}

} // verus!
