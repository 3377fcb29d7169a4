//! The `club` table: one row per club.

use vstd::prelude::*;

verus! {

/// One club. `name` is stored in lower case; `owner_id` names the coach who
/// administers the club.
#[derive(Debug, PartialEq, Eq)]
pub struct Model {
    pub club_id: i32,
    pub name: String,
    pub owner_id: i32,
}

/// A `club` row as a mathematical value.
pub struct Row {
    pub club_id: i32,
    pub name: Seq<char>,
    pub owner_id: i32,
}

impl View for Model {
    type V = Row;

    open spec fn view(&self) -> Row {
        Row { club_id: self.club_id, name: self.name@, owner_id: self.owner_id }
    }
}

impl Clone for Model {
    fn clone(&self) -> (copy: Self)
        ensures
            copy == *self,
    {
        Model { club_id: self.club_id, name: self.name.clone(), owner_id: self.owner_id }
    }
}

/// The view of a row that may be absent.
pub open spec fn row_of(found: Option<Model>) -> Option<Row> {
    match found {
        Some(model) => Some(model@),
        None => None,
    }
}

} // verus!
