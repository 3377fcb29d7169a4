use gymclub::routes::controllers::auth_controller::{login, register_athlete};
use gymclub::routes::controllers::session_controller::get_sessions_by_athlete;
use gymclub::routes::controllers::user_controller::{get_user, reset_password, update};
use gymclub::routes::services::auth_service::{login_user, register};
use gymclub::routes::services::user_service::{
    get_user as find_user, get_user_by_id, update_user, UserFilter,
};
use gymclub::store::database::Database;
use gymclub::utils::api_response::ApiResponse;
use gymclub::utils::jwt::{decode_jwt, Claims};
use gymclub::utils::request_models::auth_models::{LoginModel, RegisterModel};
use gymclub::utils::request_models::user_models::{UpdatePasswordModel, UpdateUserModel};

const NOW: usize = 1_900_000_000;

fn registration(user_type: &str, email: &str, password: &str) -> RegisterModel {
    RegisterModel {
        user_type: user_type.to_string(),
        name_first: "Ada".to_string(),
        name_last: "Lovelace".to_string(),
        email: email.to_string(),
        password: password.to_string(),
    }
}

fn credentials(user_type: &str, email: &str, password: &str) -> LoginModel {
    LoginModel {
        user_type: user_type.to_string(),
        email: email.to_string(),
        password: password.to_string(),
    }
}

fn caller(user_id: i32) -> Claims {
    Claims { exp: NOW + 86400, iat: NOW, email: "a@x.com".to_string(), user_id }
}

fn refusal(status_code: u16, body: &str) -> Result<ApiResponse, ApiResponse> {
    Err(ApiResponse { status_code, body: body.to_string() })
}

fn success(body: &str) -> Result<ApiResponse, ApiResponse> {
    Ok(ApiResponse { status_code: 200, body: body.to_string() })
}

#[test]
fn register_answers_with_the_new_id() {
    let mut db = Database::new();
    assert_eq!(register(&mut db, registration("C", "a@x.com", "pw")), success("1"));
    assert_eq!(register(&mut db, registration("A", "b@x.com", "pw")), success("2"));
}

#[test]
fn register_refuses_an_unknown_user_type() {
    let mut db = Database::new();
    assert_eq!(
        register(&mut db, registration("X", "a@x.com", "pw")),
        refusal(422, "Invalid user type, must be A or C")
    );
    assert_eq!(
        register(&mut db, registration("", "a@x.com", "pw")),
        refusal(422, "Invalid user type, must be A or C")
    );
    assert_eq!(get_user(&mut db, 1), refusal(404, "User not found"));
}

#[test]
fn register_refuses_an_email_twice_under_one_type() {
    let mut db = Database::new();
    register(&mut db, registration("C", "a@x.com", "pw")).unwrap();
    assert_eq!(
        register(&mut db, registration("C", "a@x.com", "other")),
        refusal(409, "User with that email and type already exists")
    );
    assert_eq!(register_athlete(&mut db, registration("A", "a@x.com", "pw")), success("2"));
}

#[test]
fn register_stores_the_digest_of_the_password() {
    let mut db = Database::new();
    register(&mut db, registration("C", "a@x.com", "hello")).unwrap();
    let user = get_user_by_id(&mut db, 1).unwrap();
    assert_eq!(user.password, "2cf24dba5fb0a30e26e83b2ac5b9e29e1b161e5c1fa7425e73043362938b9824");
    assert_eq!(user.email, "a@x.com");
    assert_eq!(user.user_type, "C");
    assert_eq!(user.name_first, "Ada");
    assert_eq!(user.name_last, "Lovelace");
}

#[test]
fn login_after_register_issues_a_token_for_the_user() {
    let mut db = Database::new();
    register(&mut db, registration("C", "first@x.com", "pw")).unwrap();
    register(&mut db, registration("A", "a@x.com", "pw")).unwrap();
    let answer = login_user(&mut db, "key", credentials("A", "a@x.com", "pw"), NOW).unwrap();
    assert_eq!(answer.status_code, 200);
    let token = answer.body.strip_prefix("{ 'token': ").unwrap().strip_suffix("}").unwrap();
    let issued = Claims { exp: NOW + 86400, iat: NOW, email: "a@x.com".to_string(), user_id: 2 };
    assert_eq!(decode_jwt(token, "key", NOW), Ok(issued.clone()));
    assert_eq!(decode_jwt(token, "key", NOW + 86400), Ok(issued));
    assert!(decode_jwt(token, "key", NOW + 86401).is_err());
}

#[test]
fn login_refuses_a_wrong_password_and_a_wrong_type() {
    let mut db = Database::new();
    register(&mut db, registration("C", "a@x.com", "pw")).unwrap();
    assert_eq!(
        login_user(&mut db, "key", credentials("C", "a@x.com", "wrong"), NOW),
        refusal(404, "No user found for that email and password")
    );
    assert_eq!(
        login(&mut db, "key", credentials("A", "a@x.com", "pw"), NOW),
        refusal(404, "No user found for that email and password")
    );
    assert_eq!(
        login_user(&mut db, "key", credentials("C", "b@x.com", "pw"), NOW),
        refusal(404, "No user found for that email and password")
    );
}

#[test]
fn login_refuses_a_time_whose_expiry_does_not_fit() {
    let mut db = Database::new();
    register(&mut db, registration("C", "a@x.com", "pw")).unwrap();
    assert_eq!(
        login_user(&mut db, "key", credentials("C", "a@x.com", "pw"), usize::MAX - 10),
        refusal(500, "token expiry is out of range")
    );
}

#[test]
fn update_changes_only_the_fields_that_were_sent() {
    let mut db = Database::new();
    register(&mut db, registration("C", "a@x.com", "pw")).unwrap();
    let change = UpdateUserModel {
        name_first: None,
        name_last: Some("Byron".to_string()),
        email: Some("ada@x.com".to_string()),
    };
    assert_eq!(update_user(&mut db, change, caller(1)), success("User updated!"));
    assert_eq!(
        get_user(&mut db, 1),
        success(
            "{ 'user_id': 1, 'user_type': C, 'name_first': Ada, 'name_last': Byron, 'email': ada@x.com }"
        )
    );
    let nothing = UpdateUserModel { name_first: None, name_last: None, email: None };
    assert_eq!(update(&mut db, caller(1), nothing), success("User updated!"));
    assert_eq!(get_user_by_id(&mut db, 1).unwrap().name_last, "Byron");
}

#[test]
fn update_refuses_an_unknown_caller() {
    let mut db = Database::new();
    let change = UpdateUserModel { name_first: Some("X".to_string()), name_last: None, email: None };
    assert_eq!(update_user(&mut db, change, caller(7)), refusal(404, "User not found"));
}

#[test]
fn update_reports_an_email_that_another_user_of_the_type_holds() {
    let mut db = Database::new();
    register(&mut db, registration("C", "a@x.com", "pw")).unwrap();
    register(&mut db, registration("C", "b@x.com", "pw")).unwrap();
    let change =
        UpdateUserModel { name_first: None, name_last: None, email: Some("a@x.com".to_string()) };
    assert_eq!(update_user(&mut db, change, caller(2)), refusal(500, "UNIQUE constraint failed"));
    assert_eq!(get_user_by_id(&mut db, 2).unwrap().email, "b@x.com");
}

#[test]
fn reset_password_replaces_the_password() {
    let mut db = Database::new();
    register(&mut db, registration("C", "a@x.com", "old")).unwrap();
    let change =
        UpdatePasswordModel { old_password: "old".to_string(), new_password: "new".to_string() };
    assert_eq!(
        reset_password(&mut db, caller(1), change),
        success("Password successfully changed")
    );
    let answer = login_user(&mut db, "key", credentials("C", "a@x.com", "new"), NOW).unwrap();
    assert_eq!(answer.status_code, 200);
    assert_eq!(
        login_user(&mut db, "key", credentials("C", "a@x.com", "old"), NOW),
        refusal(404, "No user found for that email and password")
    );
}

#[test]
fn reset_password_trims_the_new_password() {
    let mut db = Database::new();
    register(&mut db, registration("C", "a@x.com", "old")).unwrap();
    gymclub::routes::services::user_service::reset_password(
        &mut db,
        caller(1),
        "old".to_string(),
        "  hello \n".to_string(),
    )
    .unwrap();
    assert_eq!(
        get_user_by_id(&mut db, 1).unwrap().password,
        "2cf24dba5fb0a30e26e83b2ac5b9e29e1b161e5c1fa7425e73043362938b9824"
    );
    assert!(login_user(&mut db, "key", credentials("C", "a@x.com", "hello"), NOW).is_ok());
    assert_eq!(
        login_user(&mut db, "key", credentials("C", "a@x.com", "  hello \n"), NOW),
        refusal(404, "No user found for that email and password")
    );
}

#[test]
fn reset_password_refuses_a_wrong_old_password() {
    let mut db = Database::new();
    register(&mut db, registration("C", "a@x.com", "old")).unwrap();
    let change =
        UpdatePasswordModel { old_password: "guess".to_string(), new_password: "new".to_string() };
    assert_eq!(reset_password(&mut db, caller(1), change), refusal(401, "Password is incorrect"));
    assert!(login_user(&mut db, "key", credentials("C", "a@x.com", "old"), NOW).is_ok());
    let change =
        UpdatePasswordModel { old_password: "old".to_string(), new_password: "new".to_string() };
    assert_eq!(reset_password(&mut db, caller(9), change), refusal(404, "User not found"));
}

#[test]
fn a_user_is_shown_without_the_password() {
    let mut db = Database::new();
    register(&mut db, registration("A", "a@x.com", "pw")).unwrap();
    let shown = "{ 'user_id': 1, 'user_type': A, 'name_first': Ada, 'name_last': Lovelace, 'email': a@x.com }";
    assert_eq!(get_user(&mut db, 1), success(shown));
    assert_eq!(get_sessions_by_athlete(&mut db, caller(1)), success(shown));
    assert_eq!(get_user(&mut db, 2), refusal(404, "User not found"));
    assert_eq!(get_sessions_by_athlete(&mut db, caller(2)), refusal(404, "User not found"));
}

#[test]
fn a_user_is_found_by_the_caller_or_by_a_filter() {
    let mut db = Database::new();
    register(&mut db, registration("A", "a@x.com", "pw")).unwrap();
    register(&mut db, registration("C", "c@x.com", "pw")).unwrap();
    assert_eq!(find_user(&mut db, &caller(2), None).unwrap().email, "c@x.com");
    let coach = UserFilter { user_id: 2, user_type: Some("C".to_string()) };
    assert_eq!(find_user(&mut db, &caller(1), Some(coach)).unwrap().user_id, 2);
    let no_coach = UserFilter { user_id: 1, user_type: Some("C".to_string()) };
    assert_eq!(
        find_user(&mut db, &caller(1), Some(no_coach)),
        Err(ApiResponse { status_code: 404, body: "User not found".to_string() })
    );
    let any = UserFilter { user_id: 1, user_type: None };
    assert_eq!(find_user(&mut db, &caller(2), Some(any)).unwrap().user_type, "A");
    assert_eq!(
        get_user_by_id(&mut db, 3),
        Err(ApiResponse { status_code: 404, body: "User not found".to_string() })
    );
}
