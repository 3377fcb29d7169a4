use gymclub::entities::{club, club_member, user};
use gymclub::routes::controllers::club_controller::{begin_get_club, begin_join_club};
use gymclub::routes::controllers::home_handler::{begin_ping, greet, ping};
use gymclub::routes::controllers::session_controller::begin_get_sessions_by_athlete;
use gymclub::routes::controllers::user_controller::{begin_get_user, begin_get_user_club};
use gymclub::routes::conversation::{resume, serve};
use gymclub::routes::flow::{Flow, Step};
use gymclub::routes::services::auth_service::{begin_login, begin_register};
use gymclub::routes::services::club_member_service::begin_leave_club;
use gymclub::routes::services::club_service::{
    begin_create_club, begin_delete_club, begin_transfer_ownership,
};
use gymclub::routes::services::user_service::{begin_reset_password, begin_update_user};
use gymclub::store::database::Database;
use gymclub::store::query::{Query, Reply};
use gymclub::utils::api_response::ApiResponse;
use gymclub::utils::jwt::Claims;
use gymclub::utils::request_models::auth_models::{LoginModel, RegisterModel};
use gymclub::utils::request_models::user_models::UpdateUserModel;

const HELLO: &str = "2cf24dba5fb0a30e26e83b2ac5b9e29e1b161e5c1fa7425e73043362938b9824";

fn caller(user_id: i32) -> Claims {
    Claims { exp: 2_000_000_000, iat: 1_000_000_000, email: "x@x.com".to_string(), user_id }
}

fn refused(status_code: u16, body: &str) -> Step {
    Step::Done(Err(ApiResponse { status_code, body: body.to_string() }))
}

fn accepted(body: &str) -> Step {
    Step::Done(Ok(ApiResponse { status_code: 200, body: body.to_string() }))
}

fn failed(reason: &str) -> Reply {
    Reply::Failed(reason.to_string())
}

fn user_row(user_id: i32, user_type: &str) -> user::Model {
    user::Model {
        user_id,
        name_first: "N".to_string(),
        name_last: "M".to_string(),
        email: "a@x.com".to_string(),
        password: HELLO.to_string(),
        user_type: user_type.to_string(),
    }
}

fn club_row(club_id: i32, owner_id: i32) -> club::Model {
    club::Model { club_id, name: "acro".to_string(), owner_id }
}

fn member_row(club_member_id: i32, user_id: i32, club_id: i32) -> club_member::Model {
    club_member::Model { club_member_id, user_id, club_id }
}

fn flow_of(step: Step) -> Flow {
    match step {
        Step::Ask { flow, .. } => flow,
        Step::Done(_) => panic!("the operation is over"),
    }
}

#[test]
fn registering_asks_for_the_email_and_adds_the_user() {
    let json = RegisterModel {
        user_type: "A".to_string(),
        name_first: "N".to_string(),
        name_last: "M".to_string(),
        email: "a@x.com".to_string(),
        password: "hello".to_string(),
    };
    let first = begin_register(json);
    let flow = match first {
        Step::Ask { query, flow } => {
            assert_eq!(
                query,
                Query::UserByEmail {
                    email: "a@x.com".to_string(),
                    user_type: "A".to_string(),
                    password: None
                }
            );
            flow
        }
        Step::Done(_) => panic!("registering ended before it asked"),
    };
    let second = resume("key", flow, Reply::User(None));
    let flow = match second {
        Step::Ask { query, flow } => {
            assert_eq!(
                query,
                Query::InsertUser {
                    name_first: "N".to_string(),
                    name_last: "M".to_string(),
                    email: "a@x.com".to_string(),
                    password: HELLO.to_string(),
                    user_type: "A".to_string(),
                }
            );
            assert_eq!(flow, Flow::RegisterInsert);
            flow
        }
        Step::Done(_) => panic!("registering ended before it added the user"),
    };
    assert_eq!(resume("key", flow, Reply::User(Some(user_row(41, "A")))), accepted("41"));
}

#[test]
fn logging_in_asks_for_the_digest_of_the_password() {
    let json = LoginModel {
        user_type: "A".to_string(),
        email: "a@x.com".to_string(),
        password: "hello".to_string(),
    };
    match begin_login(json, 1_900_000_000) {
        Step::Ask { query, flow } => {
            assert_eq!(
                query,
                Query::UserByEmail {
                    email: "a@x.com".to_string(),
                    user_type: "A".to_string(),
                    password: Some(HELLO.to_string())
                }
            );
            assert_eq!(flow, Flow::LoginLookup { now: 1_900_000_000 });
        }
        Step::Done(_) => panic!("logging in ended before it asked"),
    }
}

#[test]
fn a_failure_of_the_store_is_an_internal_error() {
    let flows = vec![
        flow_of(begin_register(RegisterModel {
            user_type: "A".to_string(),
            name_first: "N".to_string(),
            name_last: "M".to_string(),
            email: "a@x.com".to_string(),
            password: "pw".to_string(),
        })),
        Flow::RegisterInsert,
        flow_of(begin_login(
            LoginModel {
                user_type: "A".to_string(),
                email: "a@x.com".to_string(),
                password: "pw".to_string(),
            },
            5,
        )),
        flow_of(begin_update_user(
            &caller(1),
            UpdateUserModel { name_first: None, name_last: None, email: None },
        )),
        Flow::UpdateWrite,
        flow_of(begin_reset_password(&caller(1), "a".to_string(), "b".to_string())),
        Flow::ResetWrite,
        flow_of(begin_get_user(1)),
        flow_of(begin_get_sessions_by_athlete(&caller(1))),
        flow_of(begin_get_user_club(&caller(1))),
        Flow::UserClubClub { caller: 1 },
        flow_of(begin_get_club(1)),
        flow_of(begin_create_club(&caller(1), "Acro".to_string())),
        Flow::CreateMembership { user_id: 1, name: "acro".to_string() },
        Flow::CreateName { user_id: 1, name: "acro".to_string() },
        Flow::CreateInsert,
        flow_of(begin_leave_club(&caller(1))),
        Flow::LeaveClub { user_id: 1, club_member_id: 1 },
        Flow::LeaveDelete,
        flow_of(begin_join_club(&caller(1), 1)),
        Flow::JoinMembership { user_id: 1, club_id: 1 },
        Flow::JoinInsert,
        flow_of(begin_delete_club(&caller(1))),
        Flow::DeleteClub { user_id: 1 },
        Flow::DeleteWrite,
        flow_of(begin_transfer_ownership(&caller(1), 2)),
        Flow::TransferMembership { user_id: 1, new_owner_id: 2 },
        Flow::TransferClub { user_id: 1, new_owner_id: 2 },
        Flow::TransferTargetMembership { club_id: 1, new_owner_id: 2 },
        Flow::TransferWrite,
        flow_of(begin_ping()),
    ];
    assert_eq!(flows.len(), 31);
    for flow in flows {
        assert_eq!(resume("key", flow, failed("connection lost")), refused(500, "connection lost"));
    }
}

#[test]
fn a_reply_of_the_wrong_kind_is_an_internal_error() {
    assert_eq!(
        resume("key", Flow::RegisterInsert, Reply::Rows(1)),
        refused(500, "unexpected reply from the store")
    );
    assert_eq!(
        resume("key", Flow::GetClubLookup, Reply::User(None)),
        refused(500, "unexpected reply from the store")
    );
    assert_eq!(
        resume("key", Flow::LeaveMembership { user_id: 1 }, Reply::Club(None)),
        refused(500, "unexpected reply from the store")
    );
    assert_eq!(
        resume("key", Flow::UpdateWrite, Reply::User(None)),
        refused(500, "unexpected reply from the store")
    );
}

#[test]
fn a_write_that_removed_no_row_is_an_internal_error() {
    assert_eq!(resume("key", Flow::LeaveDelete, Reply::Rows(1)), accepted("Successfully left club"));
    assert_eq!(resume("key", Flow::LeaveDelete, Reply::Rows(0)), refused(500, "Could not leave club"));
    assert_eq!(resume("key", Flow::LeaveDelete, Reply::Rows(2)), refused(500, "Could not leave club"));
    assert_eq!(resume("key", Flow::DeleteWrite, Reply::Rows(1)), accepted("Club deleted successfully"));
    assert_eq!(
        resume("key", Flow::DeleteWrite, Reply::Rows(0)),
        refused(500, "Internal server error: Club could not be deleted")
    );
}

#[test]
fn handing_over_asks_four_questions_before_it_writes() {
    let flow = flow_of(begin_transfer_ownership(&caller(1), 2));
    assert_eq!(flow, Flow::TransferTarget { user_id: 1, new_owner_id: 2 });
    let step = resume("key", flow, Reply::User(Some(user_row(2, "C"))));
    assert_eq!(
        step,
        Step::Ask {
            query: Query::MemberByUser { user_id: 1 },
            flow: Flow::TransferMembership { user_id: 1, new_owner_id: 2 }
        }
    );
    let step = resume("key", flow_of(step), Reply::Member(Some(member_row(1, 1, 5))));
    assert_eq!(
        step,
        Step::Ask {
            query: Query::ClubById { club_id: 5 },
            flow: Flow::TransferClub { user_id: 1, new_owner_id: 2 }
        }
    );
    let step = resume("key", flow_of(step), Reply::Club(Some(club_row(5, 1))));
    assert_eq!(
        step,
        Step::Ask {
            query: Query::MemberByUser { user_id: 2 },
            flow: Flow::TransferTargetMembership { club_id: 5, new_owner_id: 2 }
        }
    );
    let step = resume("key", flow_of(step), Reply::Member(Some(member_row(2, 2, 5))));
    assert_eq!(
        step,
        Step::Ask {
            query: Query::UpdateClubOwner { club_id: 5, owner_id: 2 },
            flow: Flow::TransferWrite
        }
    );
    assert_eq!(
        resume("key", flow_of(step), Reply::Club(Some(club_row(5, 2)))),
        accepted("Club owner updated successfully")
    );
}

#[test]
fn handing_over_stops_at_the_first_refusal() {
    let target = Flow::TransferTarget { user_id: 1, new_owner_id: 2 };
    assert_eq!(
        resume("key", target, Reply::User(Some(user_row(2, "A")))),
        refused(422, "New owner must be a coach")
    );
    let membership = Flow::TransferMembership { user_id: 1, new_owner_id: 2 };
    assert_eq!(
        resume("key", membership, Reply::Member(None)),
        refused(401, "User is not the owner of this club")
    );
    let owned = Flow::TransferClub { user_id: 1, new_owner_id: 2 };
    assert_eq!(
        resume("key", owned, Reply::Club(Some(club_row(5, 3)))),
        refused(401, "User is not the owner of this club")
    );
    let owned = Flow::TransferClub { user_id: 1, new_owner_id: 2 };
    assert_eq!(
        resume("key", owned, Reply::Club(None)),
        refused(401, "User is not the owner of this club")
    );
    let other_club = Flow::TransferTargetMembership { club_id: 5, new_owner_id: 2 };
    assert_eq!(
        resume("key", other_club, Reply::Member(Some(member_row(2, 2, 6)))),
        refused(403, "The new owner is not a member of the club")
    );
}

#[test]
fn founding_folds_the_name_before_it_asks() {
    match begin_create_club(&caller(3), "ÄCRO Club".to_string()) {
        Step::Ask { query, flow } => {
            assert_eq!(query, Query::UserById { user_id: 3, user_type: Some("C".to_string()) });
            assert_eq!(flow, Flow::CreateCoach { user_id: 3, name: "äcro club".to_string() });
        }
        Step::Done(_) => panic!("founding ended before it asked"),
    }
}

#[test]
fn a_conversation_run_on_the_store_ends_with_its_response() {
    let mut db = Database::new();
    let step = begin_register(RegisterModel {
        user_type: "C".to_string(),
        name_first: "N".to_string(),
        name_last: "M".to_string(),
        email: "a@x.com".to_string(),
        password: "pw".to_string(),
    });
    assert_eq!(serve(&mut db, "key", step), Ok(ApiResponse { status_code: 200, body: "1".to_string() }));
    let done = Step::Done(Err(ApiResponse { status_code: 418, body: "tea".to_string() }));
    assert_eq!(serve(&mut db, "key", done), Err(ApiResponse { status_code: 418, body: "tea".to_string() }));
    assert_eq!(
        serve(&mut db, "key", begin_get_club(1)),
        Err(ApiResponse { status_code: 404, body: "No club found with that club_id".to_string() })
    );
}

#[test]
fn a_greeting_and_a_ping() {
    assert_eq!(greet("Ada"), ApiResponse { status_code: 200, body: "Hello Ada!".to_string() });
    assert_eq!(greet(""), ApiResponse { status_code: 200, body: "Hello !".to_string() });
    let mut db = Database::new();
    assert_eq!(ping(&mut db), Ok(ApiResponse { status_code: 200, body: "Pong!".to_string() }));
    assert_eq!(
        resume("key", Flow::PingCount, Reply::Rows(12)),
        accepted("Pong!")
    );
}
