//! The store as a mathematical value: three tables, the constraints that the
//! schema puts on them, and what each query does.

use vstd::prelude::*;
use crate::entities::{club, club_member, user};
use crate::store::query::{QueryView, ReplyView};
use crate::store::search::{any_match, first_match, position};

verus! {

/// The users with this id and, where a type is given, of this type.
pub open spec fn user_with_id(user_id: i32, user_type: Option<Seq<char>>) -> spec_fn(
    user::Row,
) -> bool {
    |row: user::Row|
        row.user_id == user_id && (user_type matches Some(wanted) ==> row.user_type == wanted)
}

/// The users with this email and type and, where a digest is given, this
/// password digest.
pub open spec fn user_with_email(
    email: Seq<char>,
    user_type: Seq<char>,
    password: Option<Seq<char>>,
) -> spec_fn(user::Row) -> bool {
    |row: user::Row|
        row.email == email && row.user_type == user_type && (password matches Some(wanted)
            ==> row.password == wanted)
}

/// The users other than `user_id` that hold this email under this type.
pub open spec fn user_rival(user_id: i32, email: Seq<char>, user_type: Seq<char>) -> spec_fn(
    user::Row,
) -> bool {
    |row: user::Row| row.user_id != user_id && row.email == email && row.user_type == user_type
}

/// The memberships of this user.
pub open spec fn member_of_user(user_id: i32) -> spec_fn(club_member::Model) -> bool {
    |row: club_member::Model| row.user_id == user_id
}

/// The memberships with this id.
pub open spec fn member_with_id(club_member_id: i32) -> spec_fn(club_member::Model) -> bool {
    |row: club_member::Model| row.club_member_id == club_member_id
}

/// The memberships in any club but this one.
pub open spec fn member_outside(club_id: i32) -> spec_fn(club_member::Model) -> bool {
    |row: club_member::Model| row.club_id != club_id
}

/// The clubs with this id.
pub open spec fn club_with_id(club_id: i32) -> spec_fn(club::Row) -> bool {
    |row: club::Row| row.club_id == club_id
}

/// The clubs stored under this name.
pub open spec fn club_with_name(name: Seq<char>) -> spec_fn(club::Row) -> bool {
    |row: club::Row| row.name == name
}

/// A user row with the given fields overwritten.
pub open spec fn patched(
    row: user::Row,
    name_first: Option<Seq<char>>,
    name_last: Option<Seq<char>>,
    email: Option<Seq<char>>,
    password: Option<Seq<char>>,
) -> user::Row {
    user::Row {
        user_id: row.user_id,
        name_first: if name_first is Some {
            name_first->0
        } else {
            row.name_first
        },
        name_last: if name_last is Some {
            name_last->0
        } else {
            row.name_last
        },
        email: if email is Some {
            email->0
        } else {
            row.email
        },
        password: if password is Some {
            password->0
        } else {
            row.password
        },
        user_type: row.user_type,
    }
}

/// Why a query that would repeat a value that must be unique is refused.
pub open spec fn not_unique() -> Seq<char> {
    "UNIQUE constraint failed"@
}

/// Why a query that names a row that does not exist is refused.
pub open spec fn no_such_row() -> Seq<char> {
    "FOREIGN KEY constraint failed"@
}

/// Why an insertion is refused when a table has handed out its last id.
pub open spec fn no_id_left() -> Seq<char> {
    "database or disk is full"@
}

/// Why an update of a row that is not there is refused.
pub open spec fn not_updated() -> Seq<char> {
    "None of the records are updated"@
}

/// The contents of the store. Each table lists its rows in the order in
/// which they were added; each counter is the last id its table handed out.
pub struct State {
    pub users: Seq<user::Row>,
    pub clubs: Seq<club::Row>,
    pub members: Seq<club_member::Model>,
    pub user_ids: i32,
    pub club_ids: i32,
    pub member_ids: i32,
}

impl State {
    /// The store with no rows, as it is before the first request.
    pub open spec fn empty() -> State {
        State {
            users: Seq::empty(),
            clubs: Seq::empty(),
            members: Seq::empty(),
            user_ids: 0,
            club_ids: 0,
            member_ids: 0,
        }
    }

    /// The user with this id.
    pub open spec fn user(self, user_id: i32) -> Option<user::Row> {
        first_match(self.users, user_with_id(user_id, None))
    }

    /// The user registered under this email and type.
    pub open spec fn user_by_email(self, email: Seq<char>, user_type: Seq<char>) -> Option<
        user::Row,
    > {
        first_match(self.users, user_with_email(email, user_type, None))
    }

    /// The user with this email, type and password digest.
    pub open spec fn user_by_credentials(
        self,
        email: Seq<char>,
        user_type: Seq<char>,
        password: Seq<char>,
    ) -> Option<user::Row> {
        first_match(self.users, user_with_email(email, user_type, Some(password)))
    }

    /// The user with this id, if they are a coach.
    pub open spec fn coach(self, user_id: i32) -> Option<user::Row> {
        first_match(self.users, user_with_id(user_id, Some("C"@)))
    }

    /// The membership of this user.
    pub open spec fn membership_of(self, user_id: i32) -> Option<club_member::Model> {
        first_match(self.members, member_of_user(user_id))
    }

    /// The club with this id.
    pub open spec fn club(self, club_id: i32) -> Option<club::Row> {
        first_match(self.clubs, club_with_id(club_id))
    }

    /// The club stored under this name.
    pub open spec fn club_named(self, name: Seq<char>) -> Option<club::Row> {
        first_match(self.clubs, club_with_name(name))
    }

    /// The club that this user is a member of and owns.
    pub open spec fn owned_club(self, user_id: i32) -> Option<club::Row> {
        match self.membership_of(user_id) {
            Some(member) => match self.club(member.club_id) {
                Some(club) => if club.owner_id == user_id {
                    Some(club)
                } else {
                    None
                },
                None => None,
            },
            None => None,
        }
    }

    /// Primary keys: ids are positive, no larger than the table's counter,
    /// and no two rows of a table share one.
    pub open spec fn keys_hold(self) -> bool {
        &&& 0 <= self.user_ids
        &&& 0 <= self.club_ids
        &&& 0 <= self.member_ids
        &&& forall|i: int|
            0 <= i < self.users.len() ==> 1 <= (#[trigger] self.users[i]).user_id <= self.user_ids
        &&& forall|i: int|
            0 <= i < self.clubs.len() ==> 1 <= (#[trigger] self.clubs[i]).club_id <= self.club_ids
        &&& forall|i: int|
            0 <= i < self.members.len() ==> 1 <= (#[trigger] self.members[i]).club_member_id
                <= self.member_ids
        &&& forall|i: int, j: int|
            0 <= i < j < self.users.len() ==> (#[trigger] self.users[i]).user_id != (
            #[trigger] self.users[j]).user_id
        &&& forall|i: int, j: int|
            0 <= i < j < self.clubs.len() ==> (#[trigger] self.clubs[i]).club_id != (
            #[trigger] self.clubs[j]).club_id
        &&& forall|i: int, j: int|
            0 <= i < j < self.members.len() ==> (#[trigger] self.members[i]).club_member_id != (
            #[trigger] self.members[j]).club_member_id
    }

    /// Uniqueness: no two users share an email under one type, no two clubs
    /// share a name, and no user has two memberships.
    pub open spec fn unique_hold(self) -> bool {
        &&& forall|i: int, j: int|
            0 <= i < j < self.users.len() ==> !((#[trigger] self.users[i]).email == (
            #[trigger] self.users[j]).email && self.users[i].user_type == self.users[j].user_type)
        &&& forall|i: int, j: int|
            0 <= i < j < self.clubs.len() ==> (#[trigger] self.clubs[i]).name != (
            #[trigger] self.clubs[j]).name
        &&& forall|i: int, j: int|
            0 <= i < j < self.members.len() ==> (#[trigger] self.members[i]).user_id != (
            #[trigger] self.members[j]).user_id
    }

    /// Whether a user with this id exists.
    pub open spec fn has_user(self, user_id: i32) -> bool {
        any_match(self.users, user_with_id(user_id, None))
    }

    /// Whether a club with this id exists.
    pub open spec fn has_club(self, club_id: i32) -> bool {
        any_match(self.clubs, club_with_id(club_id))
    }

    /// References: every membership names an existing user and an existing
    /// club, and every club names an existing user as its owner.
    pub open spec fn references_hold(self) -> bool {
        &&& forall|i: int|
            0 <= i < self.members.len() ==> self.has_user((#[trigger] self.members[i]).user_id)
                && self.has_club(self.members[i].club_id)
        &&& forall|i: int|
            0 <= i < self.clubs.len() ==> self.has_user((#[trigger] self.clubs[i]).owner_id)
    }

    /// Every constraint of the schema holds.
    pub open spec fn wf(self) -> bool {
        &&& self.keys_hold()
        &&& self.unique_hold()
        &&& self.references_hold()
    }

    /// Adds a user under the next id, unless the ids have run out or the
    /// email is taken under that type.
    pub open spec fn insert_user(
        self,
        name_first: Seq<char>,
        name_last: Seq<char>,
        email: Seq<char>,
        password: Seq<char>,
        user_type: Seq<char>,
    ) -> (State, ReplyView) {
        if self.user_ids >= i32::MAX {
            (self, ReplyView::Failed(no_id_left()))
        } else if self.user_by_email(email, user_type) is Some {
            (self, ReplyView::Failed(not_unique()))
        } else {
            let row = user::Row {
                user_id: (self.user_ids + 1) as i32,
                name_first,
                name_last,
                email,
                password,
                user_type,
            };
            (
                State { users: self.users.push(row), user_ids: row.user_id, ..self },
                ReplyView::User(Some(row)),
            )
        }
    }

    /// Overwrites fields of the user with this id, unless there is no such
    /// user or another user holds the new email under the same type.
    pub open spec fn update_user(
        self,
        user_id: i32,
        name_first: Option<Seq<char>>,
        name_last: Option<Seq<char>>,
        email: Option<Seq<char>>,
        password: Option<Seq<char>>,
    ) -> (State, ReplyView) {
        let at = position(self.users, user_with_id(user_id, None));
        if at >= self.users.len() {
            (self, ReplyView::Failed(not_updated()))
        } else {
            let row = patched(self.users[at], name_first, name_last, email, password);
            if any_match(self.users, user_rival(user_id, row.email, row.user_type)) {
                (self, ReplyView::Failed(not_unique()))
            } else {
                (State { users: self.users.update(at, row), ..self }, ReplyView::User(Some(row)))
            }
        }
    }

    /// Adds a membership under the next id, unless the ids have run out, the
    /// user or the club does not exist, or the user has a membership.
    pub open spec fn insert_member(self, user_id: i32, club_id: i32) -> (State, ReplyView) {
        if self.member_ids >= i32::MAX {
            (self, ReplyView::Failed(no_id_left()))
        } else if self.user(user_id) is None || self.club(club_id) is None {
            (self, ReplyView::Failed(no_such_row()))
        } else if self.membership_of(user_id) is Some {
            (self, ReplyView::Failed(not_unique()))
        } else {
            let row = club_member::Model {
                club_member_id: (self.member_ids + 1) as i32,
                user_id,
                club_id,
            };
            (
                State {
                    members: self.members.push(row),
                    member_ids: row.club_member_id,
                    ..self
                },
                ReplyView::Member(Some(row)),
            )
        }
    }

    /// Removes the membership with this id, if there is one.
    pub open spec fn delete_member(self, club_member_id: i32) -> (State, ReplyView) {
        let at = position(self.members, member_with_id(club_member_id));
        if at >= self.members.len() {
            (self, ReplyView::Rows(0))
        } else {
            (State { members: self.members.remove(at), ..self }, ReplyView::Rows(1))
        }
    }

    /// Adds a club and its owner's membership under the next ids, unless
    /// the ids have run out, the owner does not exist, the name is taken, or
    /// the owner has a membership.
    pub open spec fn insert_club(self, name: Seq<char>, owner_id: i32) -> (State, ReplyView) {
        if self.club_ids >= i32::MAX || self.member_ids >= i32::MAX {
            (self, ReplyView::Failed(no_id_left()))
        } else if self.user(owner_id) is None {
            (self, ReplyView::Failed(no_such_row()))
        } else if self.club_named(name) is Some || self.membership_of(owner_id) is Some {
            (self, ReplyView::Failed(not_unique()))
        } else {
            let club = club::Row { club_id: (self.club_ids + 1) as i32, name, owner_id };
            let member = club_member::Model {
                club_member_id: (self.member_ids + 1) as i32,
                user_id: owner_id,
                club_id: club.club_id,
            };
            (
                State {
                    clubs: self.clubs.push(club),
                    members: self.members.push(member),
                    club_ids: club.club_id,
                    member_ids: member.club_member_id,
                    ..self
                },
                ReplyView::Founded { club, member },
            )
        }
    }

    /// Makes a user the owner of a club, unless either does not exist.
    pub open spec fn update_club_owner(self, club_id: i32, owner_id: i32) -> (State, ReplyView) {
        let at = position(self.clubs, club_with_id(club_id));
        if at >= self.clubs.len() {
            (self, ReplyView::Failed(not_updated()))
        } else if self.user(owner_id) is None {
            (self, ReplyView::Failed(no_such_row()))
        } else {
            let row = club::Row { owner_id, ..self.clubs[at] };
            (State { clubs: self.clubs.update(at, row), ..self }, ReplyView::Club(Some(row)))
        }
    }

    /// Removes the club with this id, if there is one, and every membership
    /// in it.
    pub open spec fn delete_club(self, club_id: i32) -> (State, ReplyView) {
        let at = position(self.clubs, club_with_id(club_id));
        if at >= self.clubs.len() {
            (self, ReplyView::Rows(0))
        } else {
            (
                State {
                    clubs: self.clubs.remove(at),
                    members: self.members.filter(member_outside(club_id)),
                    ..self
                },
                ReplyView::Rows(1),
            )
        }
    }

    /// What the store does on a query: its contents afterwards, and its
    /// reply.
    pub open spec fn answer(self, query: QueryView) -> (State, ReplyView) {
        match query {
            QueryView::UserByEmail { email, user_type, password } => (
                self,
                ReplyView::User(first_match(self.users, user_with_email(email, user_type, password))),
            ),
            QueryView::UserById { user_id, user_type } => (
                self,
                ReplyView::User(first_match(self.users, user_with_id(user_id, user_type))),
            ),
            QueryView::InsertUser {
                name_first,
                name_last,
                email,
                password,
                user_type,
            } => self.insert_user(name_first, name_last, email, password, user_type),
            QueryView::UpdateUser {
                user_id,
                name_first,
                name_last,
                email,
                password,
            } => self.update_user(user_id, name_first, name_last, email, password),
            QueryView::MemberByUser { user_id } => (
                self,
                ReplyView::Member(self.membership_of(user_id)),
            ),
            QueryView::InsertMember { user_id, club_id } => self.insert_member(user_id, club_id),
            QueryView::DeleteMember { club_member_id } => self.delete_member(club_member_id),
            QueryView::ClubById { club_id } => (self, ReplyView::Club(self.club(club_id))),
            QueryView::ClubByName { name } => (self, ReplyView::Club(self.club_named(name))),
            QueryView::InsertClub { name, owner_id } => self.insert_club(name, owner_id),
            QueryView::UpdateClubOwner { club_id, owner_id } => self.update_club_owner(
                club_id,
                owner_id,
            ),
            QueryView::DeleteClub { club_id } => self.delete_club(club_id),
            QueryView::CountUsers => (self, ReplyView::Rows(self.users.len() as u64)),
        }
    }
}

} // verus!
