//! The `club_member` table: which user belongs to which club.

use vstd::prelude::*;

verus! {

/// One membership. A row holds integers only, so it is its own mathematical
/// value.
#[derive(Debug, Clone, Copy, PartialEq, Eq, Structural)]
pub struct Model {
    pub club_member_id: i32,
    pub user_id: i32,
    pub club_id: i32,
}

} // verus!
