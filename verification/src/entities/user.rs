//! The `user` table: one row per account.

use vstd::prelude::*;

verus! {

/// One account. `password` holds the hex digest of the password, never the
/// password itself; `user_type` is "C" for a coach and "A" for an athlete.
#[derive(Debug, PartialEq, Eq)]
pub struct Model {
    pub user_id: i32,
    pub name_first: String,
    pub name_last: String,
    pub email: String,
    pub password: String,
    pub user_type: String,
}

/// A `user` row as a mathematical value.
pub struct Row {
    pub user_id: i32,
    pub name_first: Seq<char>,
    pub name_last: Seq<char>,
    pub email: Seq<char>,
    pub password: Seq<char>,
    pub user_type: Seq<char>,
}

impl View for Model {
    type V = Row;

    open spec fn view(&self) -> Row {
        Row {
            user_id: self.user_id,
            name_first: self.name_first@,
            name_last: self.name_last@,
            email: self.email@,
            password: self.password@,
            user_type: self.user_type@,
        }
    }
}

impl Clone for Model {
    fn clone(&self) -> (copy: Self)
        ensures
            copy == *self,
    {
        Model {
            user_id: self.user_id,
            name_first: self.name_first.clone(),
            name_last: self.name_last.clone(),
            email: self.email.clone(),
            password: self.password.clone(),
            user_type: self.user_type.clone(),
        }
    }
}

/// The view of a row that may be absent.
pub open spec fn row_of(found: Option<Model>) -> Option<Row> {
    match found {
        Some(model) => Some(model@),
        None => None,
    }
}

} // verus!
