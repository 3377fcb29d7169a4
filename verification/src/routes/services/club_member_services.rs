//! Memberships: a lookup that tells absence and failure alike.

use vstd::prelude::*;
use crate::entities::club_member;
use crate::store::database::Database;
use crate::store::query::{Query, Reply};
use crate::utils::jwt::Claims;

verus! {

/// Which membership to look for: the one of this user.
#[derive(Debug, Clone, Copy, PartialEq, Eq, Structural)]
pub struct MemberFilter {
    pub user_id: i32,
}

/// The membership of the user that the filter names or, without a filter,
/// of the caller, if there is one.
pub fn get_club_member(db: &mut Database, claim_data: &Claims, filters: Option<MemberFilter>) -> (found:
    Option<club_member::Model>)
    ensures
        final(db)@ == old(db)@,
        found == old(db)@.membership_of(
            match filters {
                Some(filter) => filter.user_id,
                None => claim_data.user_id,
            },
        ),
{
    let user_id = match filters {
        Some(filter) => filter.user_id,
        None => claim_data.user_id,
    };
    match db.perform(Query::MemberByUser { user_id }) {
        Reply::Member(found) => found,
        _ => None,
    }
}

} // verus!
