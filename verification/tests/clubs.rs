use gymclub::routes::controllers::club_controller::{
    create_club as found_club, delete_club as remove_club, get_club, join_club,
    transfer_ownership as hand_over,
};
use gymclub::routes::controllers::user_controller::get_user_club;
use gymclub::routes::services::auth_service::register;
use gymclub::routes::services::club_member_service::get_member_by_user_id;
use gymclub::routes::services::club_service::{
    create_club, delete_club, get_club_by_id, get_club_if_owner, is_owner, transfer_ownership,
};
use gymclub::store::database::Database;
use gymclub::utils::api_response::ApiResponse;
use gymclub::utils::jwt::Claims;
use gymclub::utils::request_models::auth_models::RegisterModel;
use gymclub::utils::request_models::club_models::{ClubModel, TransferOwnerModel};

fn caller(user_id: i32) -> Claims {
    Claims { exp: 2_000_000_000, iat: 1_000_000_000, email: "x@x.com".to_string(), user_id }
}

fn refusal(status_code: u16, body: &str) -> Result<ApiResponse, ApiResponse> {
    Err(ApiResponse { status_code, body: body.to_string() })
}

fn success(body: &str) -> Result<ApiResponse, ApiResponse> {
    Ok(ApiResponse { status_code: 200, body: body.to_string() })
}

fn add_user(db: &mut Database, user_type: &str, email: &str) -> i32 {
    let answer = register(
        db,
        RegisterModel {
            user_type: user_type.to_string(),
            name_first: "N".to_string(),
            name_last: "M".to_string(),
            email: email.to_string(),
            password: "pw".to_string(),
        },
    )
    .unwrap();
    answer.body.parse().unwrap()
}

/// Coaches 1 and 2, athlete 3, coach 4; coach 1 owns club 1 ("acro"), with
/// coach 2 and athlete 3 in it.
fn club_with_members() -> Database {
    let mut db = Database::new();
    assert_eq!(add_user(&mut db, "C", "one@x.com"), 1);
    assert_eq!(add_user(&mut db, "C", "two@x.com"), 2);
    assert_eq!(add_user(&mut db, "A", "three@x.com"), 3);
    assert_eq!(add_user(&mut db, "C", "four@x.com"), 4);
    create_club(&mut db, caller(1), "Acro".to_string()).unwrap();
    join_club(&mut db, caller(2), 1).unwrap();
    join_club(&mut db, caller(3), 1).unwrap();
    db
}

#[test]
fn a_coach_founds_a_club_under_its_lowercase_name() {
    let mut db = Database::new();
    add_user(&mut db, "C", "one@x.com");
    assert_eq!(
        create_club(&mut db, caller(1), "The ACRO Club".to_string()),
        success("{ 'member_id': 1, 'club_id': 1, 'name': the acro club }")
    );
    let club = get_club_by_id(&mut db, 1).unwrap();
    assert_eq!(club.name, "the acro club");
    assert_eq!(club.owner_id, 1);
    let member = get_member_by_user_id(&mut db, 1).unwrap();
    assert_eq!((member.club_member_id, member.user_id, member.club_id), (1, 1, 1));
    assert_eq!(get_club(&mut db, 1), success("{ 'club_id': 1, 'name': the acro club, 'owner_id': 1 }"));
}

#[test]
fn only_a_coach_founds_a_club() {
    let mut db = Database::new();
    add_user(&mut db, "A", "one@x.com");
    assert_eq!(
        create_club(&mut db, caller(1), "Acro".to_string()),
        refusal(404, "Coach account not found for that email")
    );
    assert_eq!(
        create_club(&mut db, caller(5), "Acro".to_string()),
        refusal(404, "Coach account not found for that email")
    );
    assert_eq!(get_club(&mut db, 1), refusal(404, "No club found with that club_id"));
}

#[test]
fn a_club_name_is_taken_whatever_its_case() {
    let mut db = Database::new();
    add_user(&mut db, "C", "one@x.com");
    add_user(&mut db, "C", "two@x.com");
    create_club(&mut db, caller(1), "Acro".to_string()).unwrap();
    assert_eq!(
        create_club(&mut db, caller(2), "acro".to_string()),
        refusal(409, "A club with that name already exists. Please try a different name")
    );
    assert_eq!(
        found_club(&mut db, caller(2), ClubModel { name: "ACRO".to_string() }),
        refusal(409, "A club with that name already exists. Please try a different name")
    );
    assert_eq!(
        found_club(&mut db, caller(2), ClubModel { name: "Tumbling".to_string() }),
        success("{ 'member_id': 2, 'club_id': 2, 'name': tumbling }")
    );
}

#[test]
fn a_member_of_a_club_founds_no_other() {
    let mut db = club_with_members();
    assert_eq!(
        create_club(&mut db, caller(1), "Second".to_string()),
        refusal(409, "Users cannot be part of two clubs at once")
    );
    assert_eq!(
        create_club(&mut db, caller(2), "Second".to_string()),
        refusal(409, "Users cannot be part of two clubs at once")
    );
}

#[test]
fn only_the_owner_deletes_the_club() {
    let mut db = club_with_members();
    assert_eq!(delete_club(&mut db, caller(2)), refusal(401, "User is not the owner of this club"));
    assert_eq!(delete_club(&mut db, caller(4)), refusal(401, "User is not the owner of this club"));
    assert_eq!(delete_club(&mut db, caller(9)), refusal(401, "User is not the owner of this club"));
    assert!(get_club_by_id(&mut db, 1).is_ok());
}

#[test]
fn deleting_a_club_removes_its_memberships() {
    let mut db = club_with_members();
    create_club(&mut db, caller(4), "Other".to_string()).unwrap();
    assert_eq!(remove_club(&mut db, caller(1)), success("Club deleted successfully"));
    assert_eq!(get_club(&mut db, 1), refusal(404, "No club found with that club_id"));
    assert_eq!(get_user_club(&mut db, caller(1)), refusal(404, "No club found for user"));
    assert_eq!(get_user_club(&mut db, caller(2)), refusal(404, "No club found for user"));
    assert_eq!(get_user_club(&mut db, caller(3)), refusal(404, "No club found for user"));
    assert_eq!(
        get_user_club(&mut db, caller(4)),
        success("{ 'user_id': 4, 'club_id': 2, 'name': other }")
    );
    assert_eq!(delete_club(&mut db, caller(1)), refusal(401, "User is not the owner of this club"));
    assert_eq!(
        create_club(&mut db, caller(1), "acro".to_string()),
        success("{ 'member_id': 5, 'club_id': 3, 'name': acro }")
    );
}

#[test]
fn a_club_is_handed_over_to_a_coach_in_it() {
    let mut db = club_with_members();
    assert_eq!(is_owner(&mut db, 1, 1), Ok(true));
    assert_eq!(is_owner(&mut db, 2, 1), Ok(false));
    assert_eq!(transfer_ownership(&mut db, caller(1), 2), success("Club owner updated successfully"));
    assert_eq!(is_owner(&mut db, 1, 1), Ok(false));
    assert_eq!(is_owner(&mut db, 2, 1), Ok(true));
    assert_eq!(get_club_if_owner(&mut db, 2).unwrap().club_id, 1);
    assert_eq!(
        get_club_if_owner(&mut db, 1),
        Err(ApiResponse { status_code: 401, body: "User is not the owner of this club".to_string() })
    );
    assert_eq!(
        hand_over(&mut db, caller(2), TransferOwnerModel { new_owner_id: 1 }),
        success("Club owner updated successfully")
    );
    assert_eq!(is_owner(&mut db, 1, 1), Ok(true));
}

#[test]
fn a_club_is_not_handed_over_to_anyone_else() {
    let mut db = club_with_members();
    assert_eq!(transfer_ownership(&mut db, caller(1), 3), refusal(422, "New owner must be a coach"));
    assert_eq!(transfer_ownership(&mut db, caller(1), 9), refusal(422, "New owner must be a coach"));
    assert_eq!(
        transfer_ownership(&mut db, caller(1), 4),
        refusal(403, "The new owner is not a member of the club")
    );
    create_club(&mut db, caller(4), "Other".to_string()).unwrap();
    assert_eq!(
        transfer_ownership(&mut db, caller(1), 4),
        refusal(403, "The new owner is not a member of the club")
    );
    assert_eq!(
        transfer_ownership(&mut db, caller(2), 1),
        refusal(401, "User is not the owner of this club")
    );
    assert_eq!(
        transfer_ownership(&mut db, caller(9), 1),
        refusal(401, "User is not the owner of this club")
    );
    assert_eq!(is_owner(&mut db, 1, 1), Ok(true));
}

#[test]
fn ownership_of_a_missing_club_is_not_found() {
    let mut db = club_with_members();
    assert_eq!(
        is_owner(&mut db, 1, 7),
        Err(ApiResponse { status_code: 404, body: "No club found with that club_id".to_string() })
    );
    assert_eq!(
        get_club_by_id(&mut db, 7),
        Err(ApiResponse { status_code: 404, body: "No club found with that club_id".to_string() })
    );
}

#[test]
fn the_owned_club_of_who_is_in_no_club_is_not_found() {
    let mut db = club_with_members();
    assert_eq!(
        get_club_if_owner(&mut db, 4),
        Err(ApiResponse { status_code: 404, body: "No club found for user".to_string() })
    );
    assert_eq!(
        get_club_if_owner(&mut db, 9),
        Err(ApiResponse { status_code: 404, body: "No club found for user".to_string() })
    );
    assert_eq!(
        get_club_if_owner(&mut db, 3),
        Err(ApiResponse { status_code: 401, body: "User is not the owner of this club".to_string() })
    );
    assert_eq!(get_club_if_owner(&mut db, 1).unwrap().name, "acro");
    assert_eq!(delete_club(&mut db, caller(4)), refusal(401, "User is not the owner of this club"));
    assert_eq!(
        transfer_ownership(&mut db, caller(4), 2),
        refusal(401, "User is not the owner of this club")
    );
}
