//! What an operation may ask of the store, and what the store may answer.

use vstd::prelude::*;
use crate::entities::{club, club_member, user};
use crate::utils::text::text_of;

verus! {

/// One request to the store. Every query is carried out as a whole: it
/// either takes effect completely or fails and changes nothing.
#[allow(inconsistent_fields)]
#[derive(Debug, PartialEq, Eq)]
pub enum Query {
    /// The user with this email and type and, where a digest is given, this
    /// password digest.
    UserByEmail { email: String, user_type: String, password: Option<String> },
    /// The user with this id and, where a type is given, of this type.
    UserById { user_id: i32, user_type: Option<String> },
    /// Add a user; the store picks the id.
    InsertUser {
        name_first: String,
        name_last: String,
        email: String,
        password: String,
        user_type: String,
    },
    /// Overwrite the given fields of the user with this id.
    UpdateUser {
        user_id: i32,
        name_first: Option<String>,
        name_last: Option<String>,
        email: Option<String>,
        password: Option<String>,
    },
    /// The membership of this user.
    MemberByUser { user_id: i32 },
    /// Add a membership; the store picks the id.
    InsertMember { user_id: i32, club_id: i32 },
    /// Remove the membership with this id.
    DeleteMember { club_member_id: i32 },
    /// The club with this id.
    ClubById { club_id: i32 },
    /// The club stored under this name.
    ClubByName { name: String },
    /// Add a club together with its owner's membership; the store picks
    /// both ids.
    InsertClub { name: String, owner_id: i32 },
    /// Make this user the owner of the club with this id.
    UpdateClubOwner { club_id: i32, owner_id: i32 },
    /// Remove the club with this id, and with it every membership in it.
    DeleteClub { club_id: i32 },
    /// Count the users.
    CountUsers,
}

/// `Query` as a mathematical value.
#[allow(inconsistent_fields)]
pub enum QueryView {
    UserByEmail { email: Seq<char>, user_type: Seq<char>, password: Option<Seq<char>> },
    UserById { user_id: i32, user_type: Option<Seq<char>> },
    InsertUser {
        name_first: Seq<char>,
        name_last: Seq<char>,
        email: Seq<char>,
        password: Seq<char>,
        user_type: Seq<char>,
    },
    UpdateUser {
        user_id: i32,
        name_first: Option<Seq<char>>,
        name_last: Option<Seq<char>>,
        email: Option<Seq<char>>,
        password: Option<Seq<char>>,
    },
    MemberByUser { user_id: i32 },
    InsertMember { user_id: i32, club_id: i32 },
    DeleteMember { club_member_id: i32 },
    ClubById { club_id: i32 },
    ClubByName { name: Seq<char> },
    InsertClub { name: Seq<char>, owner_id: i32 },
    UpdateClubOwner { club_id: i32, owner_id: i32 },
    DeleteClub { club_id: i32 },
    CountUsers,
}

impl View for Query {
    type V = QueryView;

    open spec fn view(&self) -> QueryView {
        match *self {
            Query::UserByEmail { email, user_type, password } => QueryView::UserByEmail {
                email: email@,
                user_type: user_type@,
                password: text_of(password),
            },
            Query::UserById { user_id, user_type } => QueryView::UserById {
                user_id,
                user_type: text_of(user_type),
            },
            Query::InsertUser {
                name_first,
                name_last,
                email,
                password,
                user_type,
            } => QueryView::InsertUser {
                name_first: name_first@,
                name_last: name_last@,
                email: email@,
                password: password@,
                user_type: user_type@,
            },
            Query::UpdateUser {
                user_id,
                name_first,
                name_last,
                email,
                password,
            } => QueryView::UpdateUser {
                user_id,
                name_first: text_of(name_first),
                name_last: text_of(name_last),
                email: text_of(email),
                password: text_of(password),
            },
            Query::MemberByUser { user_id } => QueryView::MemberByUser { user_id },
            Query::InsertMember { user_id, club_id } => QueryView::InsertMember {
                user_id,
                club_id,
            },
            Query::DeleteMember { club_member_id } => QueryView::DeleteMember { club_member_id },
            Query::ClubById { club_id } => QueryView::ClubById { club_id },
            Query::ClubByName { name } => QueryView::ClubByName { name: name@ },
            Query::InsertClub { name, owner_id } => QueryView::InsertClub { name: name@, owner_id },
            Query::UpdateClubOwner { club_id, owner_id } => QueryView::UpdateClubOwner {
                club_id,
                owner_id,
            },
            Query::DeleteClub { club_id } => QueryView::DeleteClub { club_id },
            Query::CountUsers => QueryView::CountUsers,
        }
    }
}

/// What the store answers.
#[allow(inconsistent_fields)]
#[derive(Debug, PartialEq, Eq)]
pub enum Reply {
    /// The user that was looked up, added or changed.
    User(Option<user::Model>),
    /// The membership that was looked up or added.
    Member(Option<club_member::Model>),
    /// The club that was looked up or changed.
    Club(Option<club::Model>),
    /// The club that was added, and its owner's membership.
    Founded { club: club::Model, member: club_member::Model },
    /// How many rows a query removed or counted.
    Rows(u64),
    /// The query was not carried out; the text says why.
    Failed(String),
}

/// `Reply` as a mathematical value.
#[allow(inconsistent_fields)]
pub enum ReplyView {
    User(Option<user::Row>),
    Member(Option<club_member::Model>),
    Club(Option<club::Row>),
    Founded { club: club::Row, member: club_member::Model },
    Rows(u64),
    Failed(Seq<char>),
}

impl View for Reply {
    type V = ReplyView;

    open spec fn view(&self) -> ReplyView {
        match *self {
            Reply::User(found) => ReplyView::User(user::row_of(found)),
            Reply::Member(found) => ReplyView::Member(found),
            Reply::Club(found) => ReplyView::Club(club::row_of(found)),
            Reply::Founded { club, member } => ReplyView::Founded { club: club@, member },
            Reply::Rows(count) => ReplyView::Rows(count),
            Reply::Failed(reason) => ReplyView::Failed(reason@),
        }
    }
}

} // verus!
