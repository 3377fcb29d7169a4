//! The store in memory: three tables that answer queries exactly as the
//! model in `state` says.

use vstd::prelude::*;
use crate::entities::{club, club_member, user};
use crate::store::constraints::lemma_answer_keeps_wf;
use crate::store::query::{Query, Reply, ReplyView};
use crate::store::search::{first_from, lemma_position, position};
use crate::store::state::{
    club_with_id,
    club_with_name,
    member_of_user,
    member_outside,
    member_with_id,
    user_rival,
    user_with_email,
    user_with_id,
    State,
};
use crate::utils::text::text_of;

verus! {

/// The rows that a table of users holds.
pub open spec fn user_rows(table: Seq<user::Model>) -> Seq<user::Row> {
    table.map_values(|model: user::Model| model@)
}

/// The rows that a table of clubs holds.
pub open spec fn club_rows(table: Seq<club::Model>) -> Seq<club::Row> {
    table.map_values(|model: club::Model| model@)
}

/// A relational store held in memory.
#[derive(Debug)]
pub struct Database {
    users: Vec<user::Model>,
    clubs: Vec<club::Model>,
    members: Vec<club_member::Model>,
    user_ids: i32,
    club_ids: i32,
    member_ids: i32,
}

impl View for Database {
    type V = State;

    closed spec fn view(&self) -> State {
        State {
            users: user_rows(self.users@),
            clubs: club_rows(self.clubs@),
            members: self.members@,
            user_ids: self.user_ids,
            club_ids: self.club_ids,
            member_ids: self.member_ids,
        }
    }
}

fn failed(reason: &str) -> (reply: Reply)
    ensures
        reply@ == ReplyView::Failed(reason@),
{
    Reply::Failed(String::from_str(reason))
}

impl Database {
    /// A store with no rows.
    pub fn new() -> (db: Database)
        ensures
            db@ == State::empty(),
            db@.wf(),
    {
        let db = Database {
            users: Vec::new(),
            clubs: Vec::new(),
            members: Vec::new(),
            user_ids: 0,
            club_ids: 0,
            member_ids: 0,
        };
        assert(db@.users =~= Seq::empty());
        assert(db@.clubs =~= Seq::empty());
        db
    }

    fn find_user_by_id(&self, user_id: i32, user_type: &Option<String>) -> (at: usize)
        ensures
            at == position(self@.users, user_with_id(user_id, text_of(*user_type))),
            at <= self.users.len(),
    {
        let ghost rows = self@.users;
        let ghost wanted = user_with_id(user_id, text_of(*user_type));
        let mut at: usize = 0;
        while at < self.users.len()
            invariant
                at <= self.users.len(),
                rows == user_rows(self.users@),
                wanted == user_with_id(user_id, text_of(*user_type)),
                position(rows, wanted) == first_from(rows, wanted, at as int),
            decreases self.users.len() - at,
        {
            let row = &self.users[at];
            let of_type = match user_type {
                Some(wanted_type) => row.user_type == *wanted_type,
                None => true,
            };
            if row.user_id == user_id && of_type {
                assert(wanted(rows[at as int]));
                return at;
            }
            assert(!wanted(rows[at as int]));
            at += 1;
        }
        at
    }

    fn find_user_by_email(&self, email: &String, user_type: &String, password: &Option<String>) -> (at:
        usize)
        ensures
            at == position(self@.users, user_with_email(email@, user_type@, text_of(*password))),
            at <= self.users.len(),
    {
        let ghost rows = self@.users;
        let ghost wanted = user_with_email(email@, user_type@, text_of(*password));
        let mut at: usize = 0;
        while at < self.users.len()
            invariant
                at <= self.users.len(),
                rows == user_rows(self.users@),
                wanted == user_with_email(email@, user_type@, text_of(*password)),
                position(rows, wanted) == first_from(rows, wanted, at as int),
            decreases self.users.len() - at,
        {
            let row = &self.users[at];
            let with_password = match password {
                Some(wanted_password) => row.password == *wanted_password,
                None => true,
            };
            if row.email == *email && row.user_type == *user_type && with_password {
                assert(wanted(rows[at as int]));
                return at;
            }
            assert(!wanted(rows[at as int]));
            at += 1;
        }
        at
    }

    fn find_user_rival(&self, user_id: i32, email: &String, user_type: &String) -> (at: usize)
        ensures
            at == position(self@.users, user_rival(user_id, email@, user_type@)),
            at <= self.users.len(),
    {
        let ghost rows = self@.users;
        let ghost wanted = user_rival(user_id, email@, user_type@);
        let mut at: usize = 0;
        while at < self.users.len()
            invariant
                at <= self.users.len(),
                rows == user_rows(self.users@),
                wanted == user_rival(user_id, email@, user_type@),
                position(rows, wanted) == first_from(rows, wanted, at as int),
            decreases self.users.len() - at,
        {
            let row = &self.users[at];
            if row.user_id != user_id && row.email == *email && row.user_type == *user_type {
                assert(wanted(rows[at as int]));
                return at;
            }
            assert(!wanted(rows[at as int]));
            at += 1;
        }
        at
    }

    fn find_member_of_user(&self, user_id: i32) -> (at: usize)
        ensures
            at == position(self@.members, member_of_user(user_id)),
            at <= self.members.len(),
    {
        let ghost rows = self@.members;
        let ghost wanted = member_of_user(user_id);
        let mut at: usize = 0;
        while at < self.members.len()
            invariant
                at <= self.members.len(),
                rows == self.members@,
                wanted == member_of_user(user_id),
                position(rows, wanted) == first_from(rows, wanted, at as int),
            decreases self.members.len() - at,
        {
            if self.members[at].user_id == user_id {
                assert(wanted(rows[at as int]));
                return at;
            }
            assert(!wanted(rows[at as int]));
            at += 1;
        }
        at
    }

    fn find_member_by_id(&self, club_member_id: i32) -> (at: usize)
        ensures
            at == position(self@.members, member_with_id(club_member_id)),
            at <= self.members.len(),
    {
        let ghost rows = self@.members;
        let ghost wanted = member_with_id(club_member_id);
        let mut at: usize = 0;
        while at < self.members.len()
            invariant
                at <= self.members.len(),
                rows == self.members@,
                wanted == member_with_id(club_member_id),
                position(rows, wanted) == first_from(rows, wanted, at as int),
            decreases self.members.len() - at,
        {
            if self.members[at].club_member_id == club_member_id {
                assert(wanted(rows[at as int]));
                return at;
            }
            assert(!wanted(rows[at as int]));
            at += 1;
        }
        at
    }

    fn find_club_by_id(&self, club_id: i32) -> (at: usize)
        ensures
            at == position(self@.clubs, club_with_id(club_id)),
            at <= self.clubs.len(),
    {
        let ghost rows = self@.clubs;
        let ghost wanted = club_with_id(club_id);
        let mut at: usize = 0;
        while at < self.clubs.len()
            invariant
                at <= self.clubs.len(),
                rows == club_rows(self.clubs@),
                wanted == club_with_id(club_id),
                position(rows, wanted) == first_from(rows, wanted, at as int),
            decreases self.clubs.len() - at,
        {
            if self.clubs[at].club_id == club_id {
                assert(wanted(rows[at as int]));
                return at;
            }
            assert(!wanted(rows[at as int]));
            at += 1;
        }
        at
    }

    fn find_club_by_name(&self, name: &String) -> (at: usize)
        ensures
            at == position(self@.clubs, club_with_name(name@)),
            at <= self.clubs.len(),
    {
        let ghost rows = self@.clubs;
        let ghost wanted = club_with_name(name@);
        let mut at: usize = 0;
        while at < self.clubs.len()
            invariant
                at <= self.clubs.len(),
                rows == club_rows(self.clubs@),
                wanted == club_with_name(name@),
                position(rows, wanted) == first_from(rows, wanted, at as int),
            decreases self.clubs.len() - at,
        {
            if self.clubs[at].name == *name {
                assert(wanted(rows[at as int]));
                return at;
            }
            assert(!wanted(rows[at as int]));
            at += 1;
        }
        at
    }

    fn insert_user(
        &mut self,
        name_first: String,
        name_last: String,
        email: String,
        password: String,
        user_type: String,
    ) -> (reply: Reply)
        ensures
            (final(self)@, reply@) == old(self)@.insert_user(
                name_first@,
                name_last@,
                email@,
                password@,
                user_type@,
            ),
    {
        if self.user_ids >= i32::MAX {
            return failed("database or disk is full");
        }
        let taken = self.find_user_by_email(&email, &user_type, &None);
        if taken < self.users.len() {
            return failed("UNIQUE constraint failed");
        }
        let row = user::Model {
            user_id: self.user_ids + 1,
            name_first,
            name_last,
            email,
            password,
            user_type,
        };
        self.users.push(row.clone());
        self.user_ids = row.user_id;
        assert(self@.users =~= old(self)@.users.push(row@));
        Reply::User(Some(row))
    }

    fn update_user(
        &mut self,
        user_id: i32,
        name_first: Option<String>,
        name_last: Option<String>,
        email: Option<String>,
        password: Option<String>,
    ) -> (reply: Reply)
        ensures
            (final(self)@, reply@) == old(self)@.update_user(
                user_id,
                text_of(name_first),
                text_of(name_last),
                text_of(email),
                text_of(password),
            ),
    {
        let at = self.find_user_by_id(user_id, &None);
        if at >= self.users.len() {
            return failed("None of the records are updated");
        }
        let current = &self.users[at];
        let row = user::Model {
            user_id: current.user_id,
            name_first: match name_first {
                Some(text) => text,
                None => current.name_first.clone(),
            },
            name_last: match name_last {
                Some(text) => text,
                None => current.name_last.clone(),
            },
            email: match email {
                Some(text) => text,
                None => current.email.clone(),
            },
            password: match password {
                Some(text) => text,
                None => current.password.clone(),
            },
            user_type: current.user_type.clone(),
        };
        let rival = self.find_user_rival(user_id, &row.email, &row.user_type);
        proof {
            lemma_position(self@.users, user_rival(user_id, row.email@, row.user_type@));
        }
        if rival < self.users.len() {
            return failed("UNIQUE constraint failed");
        }
        self.users.set(at, row.clone());
        assert(self@.users =~= old(self)@.users.update(at as int, row@));
        Reply::User(Some(row))
    }

    fn insert_member(&mut self, user_id: i32, club_id: i32) -> (reply: Reply)
        ensures
            (final(self)@, reply@) == old(self)@.insert_member(user_id, club_id),
    {
        if self.member_ids >= i32::MAX {
            return failed("database or disk is full");
        }
        let user_at = self.find_user_by_id(user_id, &None);
        let club_at = self.find_club_by_id(club_id);
        if user_at >= self.users.len() || club_at >= self.clubs.len() {
            return failed("FOREIGN KEY constraint failed");
        }
        let taken = self.find_member_of_user(user_id);
        if taken < self.members.len() {
            return failed("UNIQUE constraint failed");
        }
        let row = club_member::Model { club_member_id: self.member_ids + 1, user_id, club_id };
        self.members.push(row);
        self.member_ids = row.club_member_id;
        Reply::Member(Some(row))
    }

    fn delete_member(&mut self, club_member_id: i32) -> (reply: Reply)
        ensures
            (final(self)@, reply@) == old(self)@.delete_member(club_member_id),
    {
        let at = self.find_member_by_id(club_member_id);
        if at >= self.members.len() {
            return Reply::Rows(0);
        }
        self.members.remove(at);
        Reply::Rows(1)
    }

    fn insert_club(&mut self, name: String, owner_id: i32) -> (reply: Reply)
        ensures
            (final(self)@, reply@) == old(self)@.insert_club(name@, owner_id),
    {
        if self.club_ids >= i32::MAX || self.member_ids >= i32::MAX {
            return failed("database or disk is full");
        }
        let owner_at = self.find_user_by_id(owner_id, &None);
        if owner_at >= self.users.len() {
            return failed("FOREIGN KEY constraint failed");
        }
        let name_at = self.find_club_by_name(&name);
        let member_at = self.find_member_of_user(owner_id);
        if name_at < self.clubs.len() || member_at < self.members.len() {
            return failed("UNIQUE constraint failed");
        }
        let club = club::Model { club_id: self.club_ids + 1, name, owner_id };
        let member = club_member::Model {
            club_member_id: self.member_ids + 1,
            user_id: owner_id,
            club_id: club.club_id,
        };
        self.clubs.push(club.clone());
        self.members.push(member);
        self.club_ids = club.club_id;
        self.member_ids = member.club_member_id;
        assert(self@.clubs =~= old(self)@.clubs.push(club@));
        Reply::Founded { club, member }
    }

    fn update_club_owner(&mut self, club_id: i32, owner_id: i32) -> (reply: Reply)
        ensures
            (final(self)@, reply@) == old(self)@.update_club_owner(club_id, owner_id),
    {
        let at = self.find_club_by_id(club_id);
        if at >= self.clubs.len() {
            return failed("None of the records are updated");
        }
        let owner_at = self.find_user_by_id(owner_id, &None);
        if owner_at >= self.users.len() {
            return failed("FOREIGN KEY constraint failed");
        }
        let current = &self.clubs[at];
        let row = club::Model { club_id: current.club_id, name: current.name.clone(), owner_id };
        self.clubs.set(at, row.clone());
        assert(self@.clubs =~= old(self)@.clubs.update(at as int, row@));
        Reply::Club(Some(row))
    }

    fn delete_club(&mut self, club_id: i32) -> (reply: Reply)
        ensures
            (final(self)@, reply@) == old(self)@.delete_club(club_id),
    {
        let at = self.find_club_by_id(club_id);
        if at >= self.clubs.len() {
            return Reply::Rows(0);
        }
        self.clubs.remove(at);
        assert(self@.clubs =~= old(self)@.clubs.remove(at as int));
        let ghost keep = member_outside(club_id);
        let mut kept: Vec<club_member::Model> = Vec::new();
        let mut next: usize = 0;
        assert(self.members@.take(0) =~= Seq::empty());
        proof {
            reveal(Seq::filter);
        }
        while next < self.members.len()
            invariant
                next <= self.members.len(),
                keep == member_outside(club_id),
                kept@ == self.members@.take(next as int).filter(keep),
            decreases self.members.len() - next,
        {
            let row = self.members[next];
            proof {
                let front = self.members@.take(next as int);
                assert(self.members@.take(next + 1) =~= front.push(row));
                front.lemma_filter_push(row, keep);
            }
            if row.club_id != club_id {
                kept.push(row);
            }
            next += 1;
        }
        assert(self.members@.take(next as int) =~= self.members@);
        self.members = kept;
        Reply::Rows(1)
    }

    /// Carries out one query and answers it. The store changes, and
    /// replies, exactly as `State::answer` says, and its constraints stay in
    /// force.
    pub fn perform(&mut self, query: Query) -> (reply: Reply)
        ensures
            (final(self)@, reply@) == old(self)@.answer(query@),
            old(self)@.wf() ==> final(self)@.wf(),
    {
        proof {
            if self@.wf() {
                lemma_answer_keeps_wf(self@, query@);
            }
        }
        match query {
            Query::UserByEmail { email, user_type, password } => {
                let at = self.find_user_by_email(&email, &user_type, &password);
                Reply::User(self.user_at(at))
            },
            Query::UserById { user_id, user_type } => {
                let at = self.find_user_by_id(user_id, &user_type);
                Reply::User(self.user_at(at))
            },
            Query::InsertUser {
                name_first,
                name_last,
                email,
                password,
                user_type,
            } => self.insert_user(name_first, name_last, email, password, user_type),
            Query::UpdateUser {
                user_id,
                name_first,
                name_last,
                email,
                password,
            } => self.update_user(user_id, name_first, name_last, email, password),
            Query::MemberByUser { user_id } => {
                let at = self.find_member_of_user(user_id);
                Reply::Member(self.member_at(at))
            },
            Query::InsertMember { user_id, club_id } => self.insert_member(user_id, club_id),
            Query::DeleteMember { club_member_id } => self.delete_member(club_member_id),
            Query::ClubById { club_id } => {
                let at = self.find_club_by_id(club_id);
                Reply::Club(self.club_at(at))
            },
            Query::ClubByName { name } => {
                let at = self.find_club_by_name(&name);
                Reply::Club(self.club_at(at))
            },
            Query::InsertClub { name, owner_id } => self.insert_club(name, owner_id),
            Query::UpdateClubOwner { club_id, owner_id } => self.update_club_owner(
                club_id,
                owner_id,
            ),
            Query::DeleteClub { club_id } => self.delete_club(club_id),
            Query::CountUsers => Reply::Rows(self.users.len() as u64),
        }
    }

    fn user_at(&self, at: usize) -> (found: Option<user::Model>)
        requires
            at <= self.users.len(),
        ensures
            user::row_of(found) == if at < self@.users.len() {
                Some(self@.users[at as int])
            } else {
                None
            },
    {
        if at < self.users.len() {
            Some(self.users[at].clone())
        } else {
            None
        }
    }

    fn club_at(&self, at: usize) -> (found: Option<club::Model>)
        requires
            at <= self.clubs.len(),
        ensures
            club::row_of(found) == if at < self@.clubs.len() {
                Some(self@.clubs[at as int])
            } else {
                None
            },
    {
        if at < self.clubs.len() {
            Some(self.clubs[at].clone())
        } else {
            None
        }
    }

    fn member_at(&self, at: usize) -> (found: Option<club_member::Model>)
        requires
            at <= self.members.len(),
        ensures
            found == if at < self@.members.len() {
                Some(self@.members[at as int])
            } else {
                None
            },
    {
        if at < self.members.len() {
            Some(self.members[at])
        } else {
            None
        }
    }
}

} // verus!
