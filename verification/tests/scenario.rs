use gymclub::routes::controllers::club_controller::join_club;
use gymclub::routes::controllers::user_controller::get_user_club;
use gymclub::routes::middleware::auth_middleware::{check_auth_middleware, AuthHeader};
use gymclub::routes::services::auth_service::{login_user, register};
use gymclub::routes::services::club_service::create_club;
use gymclub::store::database::Database;
use gymclub::utils::jwt::Claims;
use gymclub::utils::request_models::auth_models::{LoginModel, RegisterModel};

fn registration(user_type: &str, email: &str, password: &str) -> RegisterModel {
    RegisterModel {
        user_type: user_type.to_string(),
        name_first: "First".to_string(),
        name_last: "Last".to_string(),
        email: email.to_string(),
        password: password.to_string(),
    }
}

fn claims_of(email: &str, user_id: i32) -> Claims {
    Claims { exp: 2_000_000_000, iat: 1_000_000_000, email: email.to_string(), user_id }
}

fn now() -> usize {
    std::time::SystemTime::now().duration_since(std::time::UNIX_EPOCH).unwrap().as_secs() as usize
}

#[test]
fn athlete_joins_the_club_a_coach_founded() {
    let mut db = Database::new();

    let coach = register(&mut db, registration("C", "a@x.com", "pw")).unwrap();
    assert_eq!(coach.status_code, 200);
    assert_eq!(coach.body, "1");

    let founded = create_club(&mut db, claims_of("a@x.com", 1), "Foo".to_string()).unwrap();
    assert_eq!(founded.status_code, 200);
    assert_eq!(founded.body, "{ 'member_id': 1, 'club_id': 1, 'name': foo }");

    let athlete = register(&mut db, registration("A", "b@x.com", "pw")).unwrap();
    assert_eq!(athlete.body, "2");

    let login = login_user(
        &mut db,
        "secret",
        LoginModel {
            user_type: "A".to_string(),
            email: "b@x.com".to_string(),
            password: "pw".to_string(),
        },
        now(),
    )
    .unwrap();
    assert_eq!(login.status_code, 200);
    let token = login.body.strip_prefix("{ 'token': ").unwrap().strip_suffix("}").unwrap();
    let caller = check_auth_middleware(
        AuthHeader::Text(format!("Bearer {}", token)),
        "secret",
        now() + 3600,
    )
    .unwrap();
    assert_eq!(caller.user_id, 2);
    assert_eq!(caller.email, "b@x.com");
    assert_eq!(caller.exp, caller.iat + 86400);

    let joined = join_club(&mut db, caller.clone(), 1).unwrap();
    assert_eq!(joined.status_code, 200);
    assert_eq!(joined.body, "{ 'club_member_id': 2, 'user_id': 2, 'club_id': 1");

    let shown = get_user_club(&mut db, caller).unwrap();
    assert_eq!(shown.status_code, 200);
    assert_eq!(shown.body, "{ 'user_id': 2, 'club_id': 1, 'name': foo }");
}
