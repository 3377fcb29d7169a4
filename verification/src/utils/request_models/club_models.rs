//! What a caller sends to found a club and to hand one over.

use vstd::prelude::*;

verus! {

/// A request to found a club of this name.
#[derive(Debug, PartialEq, Eq)]
pub struct ClubModel {
    pub name: String,
}

/// A request to make this user the owner of the caller's club.
#[derive(Debug, Clone, Copy, PartialEq, Eq, Structural)]
pub struct TransferOwnerModel {
    pub new_owner_id: i32,
}

} // verus!
