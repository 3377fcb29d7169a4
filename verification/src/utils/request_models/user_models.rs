//! What a caller sends to change their own account.

use vstd::prelude::*;
use crate::utils::text::text_of;

verus! {

/// New values for the fields of a profile; an absent field stays as it is.
#[derive(Debug, PartialEq, Eq)]
pub struct UpdateUserModel {
    pub name_first: Option<String>,
    pub name_last: Option<String>,
    pub email: Option<String>,
}

/// `UpdateUserModel` as a mathematical value.
pub struct UpdateUserView {
    pub name_first: Option<Seq<char>>,
    pub name_last: Option<Seq<char>>,
    pub email: Option<Seq<char>>,
}

impl View for UpdateUserModel {
    type V = UpdateUserView;

    open spec fn view(&self) -> UpdateUserView {
        UpdateUserView {
            name_first: text_of(self.name_first),
            name_last: text_of(self.name_last),
            email: text_of(self.email),
        }
    }
}

/// A request to move the caller to another club.
#[derive(Debug, Clone, Copy, PartialEq, Eq, Structural)]
pub struct UpdateUserClubModel {
    pub club_id: u32,
}

/// A request to replace the caller's password.
#[derive(Debug, PartialEq, Eq)]
pub struct UpdatePasswordModel {
    pub old_password: String,
    pub new_password: String,
}

/// `UpdatePasswordModel` as a mathematical value.
pub struct UpdatePasswordView {
    pub old_password: Seq<char>,
    pub new_password: Seq<char>,
}

impl View for UpdatePasswordModel {
    type V = UpdatePasswordView;

    open spec fn view(&self) -> UpdatePasswordView {
        UpdatePasswordView { old_password: self.old_password@, new_password: self.new_password@ }
    }
}

} // verus!
