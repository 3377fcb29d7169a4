use gymclub::entities::{club, club_member, user};
use gymclub::store::database::Database;
use gymclub::store::query::{Query, Reply};

fn insert_user(email: &str, user_type: &str) -> Query {
    Query::InsertUser {
        name_first: "N".to_string(),
        name_last: "M".to_string(),
        email: email.to_string(),
        password: "digest".to_string(),
        user_type: user_type.to_string(),
    }
}

fn user_row(user_id: i32, email: &str, user_type: &str) -> user::Model {
    user::Model {
        user_id,
        name_first: "N".to_string(),
        name_last: "M".to_string(),
        email: email.to_string(),
        password: "digest".to_string(),
        user_type: user_type.to_string(),
    }
}

fn by_id(user_id: i32) -> Query {
    Query::UserById { user_id, user_type: None }
}

fn failed(reason: &str) -> Reply {
    Reply::Failed(reason.to_string())
}

#[test]
fn an_empty_store_finds_nothing() {
    let mut db = Database::new();
    assert_eq!(db.perform(by_id(1)), Reply::User(None));
    assert_eq!(db.perform(Query::MemberByUser { user_id: 1 }), Reply::Member(None));
    assert_eq!(db.perform(Query::ClubById { club_id: 1 }), Reply::Club(None));
    assert_eq!(db.perform(Query::ClubByName { name: "a".to_string() }), Reply::Club(None));
    assert_eq!(db.perform(Query::CountUsers), Reply::Rows(0));
    assert_eq!(db.perform(Query::DeleteClub { club_id: 1 }), Reply::Rows(0));
    assert_eq!(db.perform(Query::DeleteMember { club_member_id: 1 }), Reply::Rows(0));
}

#[test]
fn users_get_ids_in_order_and_are_found_by_each_key() {
    let mut db = Database::new();
    assert_eq!(db.perform(insert_user("a@x.com", "C")), Reply::User(Some(user_row(1, "a@x.com", "C"))));
    assert_eq!(db.perform(insert_user("a@x.com", "A")), Reply::User(Some(user_row(2, "a@x.com", "A"))));
    assert_eq!(db.perform(Query::CountUsers), Reply::Rows(2));
    assert_eq!(db.perform(by_id(2)), Reply::User(Some(user_row(2, "a@x.com", "A"))));
    assert_eq!(
        db.perform(Query::UserById { user_id: 2, user_type: Some("C".to_string()) }),
        Reply::User(None)
    );
    assert_eq!(
        db.perform(Query::UserByEmail {
            email: "a@x.com".to_string(),
            user_type: "A".to_string(),
            password: None
        }),
        Reply::User(Some(user_row(2, "a@x.com", "A")))
    );
    assert_eq!(
        db.perform(Query::UserByEmail {
            email: "a@x.com".to_string(),
            user_type: "C".to_string(),
            password: Some("digest".to_string())
        }),
        Reply::User(Some(user_row(1, "a@x.com", "C")))
    );
    assert_eq!(
        db.perform(Query::UserByEmail {
            email: "a@x.com".to_string(),
            user_type: "C".to_string(),
            password: Some("other".to_string())
        }),
        Reply::User(None)
    );
}

#[test]
fn an_email_is_unique_under_a_type() {
    let mut db = Database::new();
    db.perform(insert_user("a@x.com", "C"));
    db.perform(insert_user("b@x.com", "C"));
    assert_eq!(db.perform(insert_user("a@x.com", "C")), failed("UNIQUE constraint failed"));
    assert_eq!(db.perform(Query::CountUsers), Reply::Rows(2));
    let take_over = Query::UpdateUser {
        user_id: 2,
        name_first: None,
        name_last: None,
        email: Some("a@x.com".to_string()),
        password: None,
    };
    assert_eq!(db.perform(take_over), failed("UNIQUE constraint failed"));
    let keep = Query::UpdateUser {
        user_id: 2,
        name_first: Some("New".to_string()),
        name_last: None,
        email: Some("b@x.com".to_string()),
        password: Some("fresh".to_string()),
    };
    let mut changed = user_row(2, "b@x.com", "C");
    changed.name_first = "New".to_string();
    changed.password = "fresh".to_string();
    assert_eq!(db.perform(keep), Reply::User(Some(changed.clone())));
    assert_eq!(db.perform(by_id(2)), Reply::User(Some(changed)));
    assert_eq!(db.perform(by_id(1)), Reply::User(Some(user_row(1, "a@x.com", "C"))));
}

#[test]
fn a_missing_row_is_not_updated() {
    let mut db = Database::new();
    db.perform(insert_user("a@x.com", "C"));
    let change = Query::UpdateUser {
        user_id: 5,
        name_first: None,
        name_last: None,
        email: None,
        password: None,
    };
    assert_eq!(db.perform(change), failed("None of the records are updated"));
    assert_eq!(
        db.perform(Query::UpdateClubOwner { club_id: 1, owner_id: 1 }),
        failed("None of the records are updated")
    );
}

#[test]
fn a_club_comes_with_its_owners_membership() {
    let mut db = Database::new();
    db.perform(insert_user("a@x.com", "C"));
    db.perform(insert_user("b@x.com", "C"));
    let club = club::Model { club_id: 1, name: "acro".to_string(), owner_id: 1 };
    let member = club_member::Model { club_member_id: 1, user_id: 1, club_id: 1 };
    assert_eq!(
        db.perform(Query::InsertClub { name: "acro".to_string(), owner_id: 1 }),
        Reply::Founded { club: club.clone(), member }
    );
    assert_eq!(db.perform(Query::ClubById { club_id: 1 }), Reply::Club(Some(club.clone())));
    assert_eq!(db.perform(Query::ClubByName { name: "acro".to_string() }), Reply::Club(Some(club)));
    assert_eq!(db.perform(Query::ClubByName { name: "Acro".to_string() }), Reply::Club(None));
    assert_eq!(db.perform(Query::MemberByUser { user_id: 1 }), Reply::Member(Some(member)));
    assert_eq!(
        db.perform(Query::InsertClub { name: "acro".to_string(), owner_id: 2 }),
        failed("UNIQUE constraint failed")
    );
    assert_eq!(
        db.perform(Query::InsertClub { name: "other".to_string(), owner_id: 1 }),
        failed("UNIQUE constraint failed")
    );
    assert_eq!(
        db.perform(Query::InsertClub { name: "other".to_string(), owner_id: 3 }),
        failed("FOREIGN KEY constraint failed")
    );
    assert_eq!(db.perform(Query::MemberByUser { user_id: 2 }), Reply::Member(None));
    assert_eq!(db.perform(Query::ClubById { club_id: 2 }), Reply::Club(None));
}

#[test]
fn a_membership_names_an_existing_user_and_club_once() {
    let mut db = Database::new();
    db.perform(insert_user("a@x.com", "C"));
    db.perform(insert_user("b@x.com", "A"));
    db.perform(Query::InsertClub { name: "acro".to_string(), owner_id: 1 });
    assert_eq!(
        db.perform(Query::InsertMember { user_id: 2, club_id: 2 }),
        failed("FOREIGN KEY constraint failed")
    );
    assert_eq!(
        db.perform(Query::InsertMember { user_id: 3, club_id: 1 }),
        failed("FOREIGN KEY constraint failed")
    );
    assert_eq!(
        db.perform(Query::InsertMember { user_id: 2, club_id: 1 }),
        Reply::Member(Some(club_member::Model { club_member_id: 2, user_id: 2, club_id: 1 }))
    );
    assert_eq!(
        db.perform(Query::InsertMember { user_id: 2, club_id: 1 }),
        failed("UNIQUE constraint failed")
    );
    assert_eq!(db.perform(Query::DeleteMember { club_member_id: 2 }), Reply::Rows(1));
    assert_eq!(db.perform(Query::DeleteMember { club_member_id: 2 }), Reply::Rows(0));
    assert_eq!(
        db.perform(Query::InsertMember { user_id: 2, club_id: 1 }),
        Reply::Member(Some(club_member::Model { club_member_id: 3, user_id: 2, club_id: 1 }))
    );
}

#[test]
fn deleting_a_club_takes_its_memberships_along() {
    let mut db = Database::new();
    db.perform(insert_user("a@x.com", "C"));
    db.perform(insert_user("b@x.com", "C"));
    db.perform(insert_user("c@x.com", "A"));
    db.perform(Query::InsertClub { name: "one".to_string(), owner_id: 1 });
    db.perform(Query::InsertClub { name: "two".to_string(), owner_id: 2 });
    db.perform(Query::InsertMember { user_id: 3, club_id: 1 });
    assert_eq!(db.perform(Query::DeleteClub { club_id: 1 }), Reply::Rows(1));
    assert_eq!(db.perform(Query::MemberByUser { user_id: 1 }), Reply::Member(None));
    assert_eq!(db.perform(Query::MemberByUser { user_id: 3 }), Reply::Member(None));
    assert_eq!(
        db.perform(Query::MemberByUser { user_id: 2 }),
        Reply::Member(Some(club_member::Model { club_member_id: 2, user_id: 2, club_id: 2 }))
    );
    assert_eq!(db.perform(Query::ClubById { club_id: 1 }), Reply::Club(None));
    assert_eq!(db.perform(Query::CountUsers), Reply::Rows(3));
}

#[test]
fn a_club_changes_its_owner() {
    let mut db = Database::new();
    db.perform(insert_user("a@x.com", "C"));
    db.perform(insert_user("b@x.com", "C"));
    db.perform(Query::InsertClub { name: "one".to_string(), owner_id: 1 });
    assert_eq!(
        db.perform(Query::UpdateClubOwner { club_id: 1, owner_id: 2 }),
        Reply::Club(Some(club::Model { club_id: 1, name: "one".to_string(), owner_id: 2 }))
    );
    assert_eq!(
        db.perform(Query::UpdateClubOwner { club_id: 1, owner_id: 9 }),
        failed("FOREIGN KEY constraint failed")
    );
    assert_eq!(
        db.perform(Query::ClubById { club_id: 1 }),
        Reply::Club(Some(club::Model { club_id: 1, name: "one".to_string(), owner_id: 2 }))
    );
}
