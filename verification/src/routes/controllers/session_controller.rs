//! Training sessions. So far a caller can only be shown their own account.

use vstd::prelude::*;
use crate::routes::controllers::user_controller::{
    begin_get_user,
    get_user,
    get_user_outcome,
    get_user_start,
};
use crate::routes::flow::Step;
use crate::store::database::Database;
use crate::utils::api_response::{outcome_of, ApiResponse};
use crate::utils::jwt::Claims;

verus! {

/// Begins showing the caller's own account.
pub fn begin_get_sessions_by_athlete(claim_data: &Claims) -> (step: Step)
    ensures
        step@ == get_user_start(claim_data.user_id),
{
    begin_get_user(claim_data.user_id)
}

/// Shows the caller's own account.
pub fn get_sessions_by_athlete(db: &mut Database, claim_data: Claims) -> (outcome: Result<
    ApiResponse,
    ApiResponse,
>)
    ensures
        (final(db)@, outcome_of(outcome)) == get_user_outcome(old(db)@, claim_data.user_id),
{
    get_user(db, claim_data.user_id)
}

} // verus!
