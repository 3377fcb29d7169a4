use gymclub::entities::club_member;
use gymclub::routes::controllers::club_controller::{join_club, leave_club as walk_out};
use gymclub::routes::controllers::user_controller::get_user_club;
use gymclub::routes::services::auth_service::register;
use gymclub::routes::services::club_member_service::{
    create_membership, get_member_by_user_id, leave_club,
};
use gymclub::routes::services::club_member_services::{get_club_member, MemberFilter};
use gymclub::routes::services::club_service::create_club;
use gymclub::store::database::Database;
use gymclub::utils::api_response::ApiResponse;
use gymclub::utils::jwt::Claims;
use gymclub::utils::request_models::auth_models::RegisterModel;

fn caller(user_id: i32) -> Claims {
    Claims { exp: 2_000_000_000, iat: 1_000_000_000, email: "x@x.com".to_string(), user_id }
}

fn refusal(status_code: u16, body: &str) -> Result<ApiResponse, ApiResponse> {
    Err(ApiResponse { status_code, body: body.to_string() })
}

fn success(body: &str) -> Result<ApiResponse, ApiResponse> {
    Ok(ApiResponse { status_code: 200, body: body.to_string() })
}

fn add_user(db: &mut Database, user_type: &str, email: &str) {
    register(
        db,
        RegisterModel {
            user_type: user_type.to_string(),
            name_first: "N".to_string(),
            name_last: "M".to_string(),
            email: email.to_string(),
            password: "pw".to_string(),
        },
    )
    .unwrap();
}

/// Coach 1 owns club 1, coach 2 owns club 2, athletes 3 and 4 are in no
/// club.
fn two_clubs() -> Database {
    let mut db = Database::new();
    add_user(&mut db, "C", "one@x.com");
    add_user(&mut db, "C", "two@x.com");
    add_user(&mut db, "A", "three@x.com");
    add_user(&mut db, "A", "four@x.com");
    create_club(&mut db, caller(1), "First".to_string()).unwrap();
    create_club(&mut db, caller(2), "Second".to_string()).unwrap();
    db
}

#[test]
fn joining_reports_the_membership() {
    let mut db = two_clubs();
    assert_eq!(
        join_club(&mut db, caller(3), 2),
        success("{ 'club_member_id': 3, 'user_id': 3, 'club_id': 2")
    );
    assert_eq!(
        get_member_by_user_id(&mut db, 3),
        Ok(club_member::Model { club_member_id: 3, user_id: 3, club_id: 2 })
    );
    assert_eq!(
        get_user_club(&mut db, caller(3)),
        success("{ 'user_id': 3, 'club_id': 2, 'name': second }")
    );
}

#[test]
fn joining_a_missing_club_is_not_found() {
    let mut db = two_clubs();
    assert_eq!(join_club(&mut db, caller(3), 5), refusal(404, "No club found with that club_id"));
    assert_eq!(get_club_member(&mut db, &caller(3), None), None);
}

#[test]
fn a_member_joins_no_second_club() {
    let mut db = two_clubs();
    join_club(&mut db, caller(3), 1).unwrap();
    assert_eq!(join_club(&mut db, caller(3), 2), refusal(409, "User is already a member of a club"));
    assert_eq!(join_club(&mut db, caller(3), 1), refusal(409, "User is already a member of a club"));
    assert_eq!(join_club(&mut db, caller(1), 2), refusal(409, "User is already a member of a club"));
    assert_eq!(
        create_membership(&mut db, caller(3), 2),
        Err(ApiResponse { status_code: 409, body: "User is already a member of a club".to_string() })
    );
    assert_eq!(get_member_by_user_id(&mut db, 3).unwrap().club_id, 1);
}

#[test]
fn a_membership_needs_its_user_and_its_club() {
    let mut db = two_clubs();
    assert_eq!(
        create_membership(&mut db, caller(3), 9),
        Err(ApiResponse { status_code: 500, body: "FOREIGN KEY constraint failed".to_string() })
    );
    assert_eq!(
        join_club(&mut db, caller(9), 1),
        refusal(500, "FOREIGN KEY constraint failed")
    );
    assert_eq!(
        create_membership(&mut db, caller(4), 2),
        Ok(club_member::Model { club_member_id: 3, user_id: 4, club_id: 2 })
    );
}

#[test]
fn the_owner_does_not_leave() {
    let mut db = two_clubs();
    assert_eq!(
        leave_club(&mut db, caller(1)),
        refusal(409, "User cannot leave the club if they are the owner")
    );
    assert_eq!(get_member_by_user_id(&mut db, 1).unwrap().club_id, 1);
}

#[test]
fn a_member_leaves_and_their_membership_is_gone() {
    let mut db = two_clubs();
    join_club(&mut db, caller(3), 1).unwrap();
    join_club(&mut db, caller(4), 1).unwrap();
    assert_eq!(leave_club(&mut db, caller(3)), success("Successfully left club"));
    assert_eq!(
        get_member_by_user_id(&mut db, 3),
        Err(ApiResponse { status_code: 404, body: "No club found for user".to_string() })
    );
    assert_eq!(get_member_by_user_id(&mut db, 4).unwrap().club_id, 1);
    assert_eq!(get_member_by_user_id(&mut db, 1).unwrap().club_id, 1);
    assert_eq!(walk_out(&mut db, caller(3)), refusal(404, "No club found for user"));
    assert_eq!(
        join_club(&mut db, caller(3), 2),
        success("{ 'club_member_id': 5, 'user_id': 3, 'club_id': 2")
    );
}

#[test]
fn who_is_in_no_club_cannot_leave() {
    let mut db = two_clubs();
    assert_eq!(leave_club(&mut db, caller(3)), refusal(404, "No club found for user"));
    assert_eq!(leave_club(&mut db, caller(8)), refusal(404, "No club found for user"));
}

#[test]
fn a_membership_is_looked_up_for_the_caller_or_by_a_filter() {
    let mut db = two_clubs();
    assert_eq!(
        get_club_member(&mut db, &caller(2), None),
        Some(club_member::Model { club_member_id: 2, user_id: 2, club_id: 2 })
    );
    assert_eq!(
        get_club_member(&mut db, &caller(3), Some(MemberFilter { user_id: 1 })),
        Some(club_member::Model { club_member_id: 1, user_id: 1, club_id: 1 })
    );
    assert_eq!(get_club_member(&mut db, &caller(1), Some(MemberFilter { user_id: 3 })), None);
}
