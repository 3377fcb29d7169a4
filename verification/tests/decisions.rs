use gymclub::entities::user;
use gymclub::routes::flow::{accept, fail, refuse, Flow, Step};
use gymclub::routes::services::auth_service::{
    insert_registered, look_up_credentials, token_response,
};
use gymclub::routes::services::club_member_service::read_member;
use gymclub::routes::services::club_service::{look_up_coach, read_club};
use gymclub::routes::services::user_service::{decide_reset, read_user};
use gymclub::store::query::{Query, Reply};
use gymclub::utils::api_response::ApiResponse;
use gymclub::utils::jwt::SigningError;
use gymclub::utils::request_models::auth_models::{LoginModel, RegisterModel};

fn user_with_digest(digest: &str) -> user::Model {
    user::Model {
        user_id: 3,
        name_first: "N".to_string(),
        name_last: "M".to_string(),
        email: "a@x.com".to_string(),
        password: digest.to_string(),
        user_type: "A".to_string(),
    }
}

#[test]
fn a_reset_needs_the_stored_digest() {
    assert_eq!(
        decide_reset(user_with_digest("abc"), "abd".to_string(), "new".to_string()),
        Step::Done(Err(ApiResponse { status_code: 401, body: "Password is incorrect".to_string() }))
    );
    assert_eq!(
        decide_reset(user_with_digest("abc"), "abc".to_string(), "new".to_string()),
        Step::Ask {
            query: Query::UpdateUser {
                user_id: 3,
                name_first: None,
                name_last: None,
                email: None,
                password: Some("new".to_string()),
            },
            flow: Flow::ResetWrite,
        }
    );
}

#[test]
fn a_user_is_added_with_the_digest_it_is_given() {
    let json = RegisterModel {
        user_type: "A".to_string(),
        name_first: "N".to_string(),
        name_last: "M".to_string(),
        email: "a@x.com".to_string(),
        password: "secret".to_string(),
    };
    assert_eq!(
        insert_registered(json, "d1g3st".to_string()),
        Step::Ask {
            query: Query::InsertUser {
                name_first: "N".to_string(),
                name_last: "M".to_string(),
                email: "a@x.com".to_string(),
                password: "d1g3st".to_string(),
                user_type: "A".to_string(),
            },
            flow: Flow::RegisterInsert,
        }
    );
}

#[test]
fn credentials_are_looked_up_by_the_digest_they_are_given() {
    let json = LoginModel {
        user_type: "C".to_string(),
        email: "a@x.com".to_string(),
        password: "secret".to_string(),
    };
    assert_eq!(
        look_up_credentials(json, "d1g3st".to_string(), 77),
        Step::Ask {
            query: Query::UserByEmail {
                email: "a@x.com".to_string(),
                user_type: "C".to_string(),
                password: Some("d1g3st".to_string()),
            },
            flow: Flow::LoginLookup { now: 77 },
        }
    );
}

#[test]
fn a_coach_is_looked_up_under_the_name_it_is_given() {
    assert_eq!(
        look_up_coach(4, "Kept As Is".to_string()),
        Step::Ask {
            query: Query::UserById { user_id: 4, user_type: Some("C".to_string()) },
            flow: Flow::CreateCoach { user_id: 4, name: "Kept As Is".to_string() },
        }
    );
}

#[test]
fn a_login_answers_with_the_token_or_the_reason() {
    assert_eq!(
        token_response(Ok("a.b.c".to_string())),
        Step::Done(Ok(ApiResponse { status_code: 200, body: "{ 'token': a.b.c}".to_string() }))
    );
    assert_eq!(
        token_response(Err(SigningError { message: "InvalidAlgorithm".to_string() })),
        Step::Done(Err(ApiResponse { status_code: 500, body: "InvalidAlgorithm".to_string() }))
    );
}

#[test]
fn steps_that_end_an_operation() {
    assert_eq!(
        refuse(404, "gone"),
        Step::Done(Err(ApiResponse { status_code: 404, body: "gone".to_string() }))
    );
    assert_eq!(
        accept("fine".to_string()),
        Step::Done(Ok(ApiResponse { status_code: 200, body: "fine".to_string() }))
    );
    assert_eq!(
        fail(Reply::Failed("disk".to_string())),
        Step::Done(Err(ApiResponse { status_code: 500, body: "disk".to_string() }))
    );
    assert_eq!(
        fail(Reply::Rows(3)),
        Step::Done(Err(ApiResponse {
            status_code: 500,
            body: "unexpected reply from the store".to_string()
        }))
    );
}

#[test]
fn a_lookup_is_read_as_a_row_or_a_refusal() {
    assert_eq!(read_user(Reply::User(Some(user_with_digest("d")))), Ok(user_with_digest("d")));
    assert_eq!(
        read_user(Reply::User(None)),
        Err(ApiResponse { status_code: 404, body: "User not found".to_string() })
    );
    assert_eq!(
        read_user(Reply::Failed("down".to_string())),
        Err(ApiResponse { status_code: 500, body: "down".to_string() })
    );
    assert_eq!(
        read_user(Reply::Rows(1)),
        Err(ApiResponse { status_code: 500, body: "unexpected reply from the store".to_string() })
    );
    assert_eq!(
        read_member(Reply::Member(None)),
        Err(ApiResponse { status_code: 404, body: "No club found for user".to_string() })
    );
    assert_eq!(
        read_member(Reply::Failed("down".to_string())),
        Err(ApiResponse { status_code: 500, body: "down".to_string() })
    );
    assert_eq!(
        read_club(Reply::Club(None)),
        Err(ApiResponse { status_code: 404, body: "No club found with that club_id".to_string() })
    );
    assert_eq!(
        read_club(Reply::User(None)),
        Err(ApiResponse { status_code: 500, body: "unexpected reply from the store".to_string() })
    );
}
