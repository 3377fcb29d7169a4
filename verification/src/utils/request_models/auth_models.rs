//! What a caller sends to register and to log in.

use vstd::prelude::*;

verus! {

/// A request to open an account.
#[derive(Debug, PartialEq, Eq)]
pub struct RegisterModel {
    pub user_type: String,
    pub name_first: String,
    pub name_last: String,
    pub email: String,
    pub password: String,
}

/// `RegisterModel` as a mathematical value.
pub struct RegisterView {
    pub user_type: Seq<char>,
    pub name_first: Seq<char>,
    pub name_last: Seq<char>,
    pub email: Seq<char>,
    pub password: Seq<char>,
}

impl View for RegisterModel {
    type V = RegisterView;

    open spec fn view(&self) -> RegisterView {
        RegisterView {
            user_type: self.user_type@,
            name_first: self.name_first@,
            name_last: self.name_last@,
            email: self.email@,
            password: self.password@,
        }
    }
}

/// A request to log in.
#[derive(Debug, PartialEq, Eq)]
pub struct LoginModel {
    pub user_type: String,
    pub email: String,
    pub password: String,
}

/// `LoginModel` as a mathematical value.
pub struct LoginView {
    pub user_type: Seq<char>,
    pub email: Seq<char>,
    pub password: Seq<char>,
}

impl View for LoginModel {
    type V = LoginView;

    open spec fn view(&self) -> LoginView {
        LoginView { user_type: self.user_type@, email: self.email@, password: self.password@ }
    }
}

} // verus!
