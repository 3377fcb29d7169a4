//! Opening an account and logging in.

use vstd::prelude::*;
use crate::entities::user;
use crate::routes::conversation::{resume, run, serve};
use crate::routes::flow::{accept, accepted, fail, failure, refuse, refused, Flow, FlowView, Step, StepView};
use crate::store::database::Database;
use crate::store::query::{Query, QueryView, Reply, ReplyView};
use crate::store::state::{no_id_left, State};
use crate::utils::api_response::{outcome_of, response, ApiResponse, OutcomeView};
use crate::utils::jwt::{
    encode_jwt,
    issued_claims,
    signed,
    signing_of,
    verifies_as,
    ClaimsView,
    SigningError,
    TOKEN_LIFETIME,
};
use crate::utils::password::{digest, sha256_hex};
use crate::utils::request_models::auth_models::{LoginModel, LoginView, RegisterModel, RegisterView};
use crate::utils::text::{decimal, decimal_string, same_text};

verus! {

/// Whether a text names a kind of user: "A" for an athlete, "C" for a coach.
pub open spec fn valid_user_type(user_type: Seq<char>) -> bool {
    user_type == "A"@ || user_type == "C"@
}

/// How registering begins: an unknown user type is refused at once;
/// otherwise the store is asked who holds the email under that type.
pub open spec fn register_start(json: RegisterView) -> StepView {
    if !valid_user_type(json.user_type) {
        refused(422, "Invalid user type, must be A or C"@)
    } else {
        StepView::Ask {
            query: QueryView::UserByEmail {
                email: json.email,
                user_type: json.user_type,
                password: None,
            },
            flow: FlowView::RegisterLookup { json },
        }
    }
}

/// The step that adds a user with the given digest in place of the
/// password.
pub open spec fn register_insertion(json: RegisterView, password_digest: Seq<char>) -> StepView {
    StepView::Ask {
        query: QueryView::InsertUser {
            name_first: json.name_first,
            name_last: json.name_last,
            email: json.email,
            password: password_digest,
            user_type: json.user_type,
        },
        flow: FlowView::RegisterInsert,
    }
}

/// Registering, once the store has said who holds the email: a holder
/// means a conflict; with none, the user is added with the digest of the
/// password.
pub open spec fn register_on_lookup(json: RegisterView, reply: ReplyView) -> StepView {
    match reply {
        ReplyView::User(None) => register_insertion(json, sha256_hex(json.password)),
        ReplyView::User(Some(_)) => refused(
            409,
            "User with that email and type already exists"@,
        ),
        _ => failure(reply),
    }
}

/// Registering, once the user is added: the response holds the new id.
pub open spec fn register_on_insert(reply: ReplyView) -> StepView {
    match reply {
        ReplyView::User(Some(user)) => accepted(decimal(user.user_id as int)),
        _ => failure(reply),
    }
}

/// Begins registering a user.
pub fn begin_register(json: RegisterModel) -> (step: Step)
    ensures
        step@ == register_start(json@),
{
    if !same_text(json.user_type.as_str(), "A") && !same_text(json.user_type.as_str(), "C") {
        return refuse(422, "Invalid user type, must be A or C");
    }
    Step::Ask {
        query: Query::UserByEmail {
            email: json.email.clone(),
            user_type: json.user_type.clone(),
            password: None,
        },
        flow: Flow::RegisterLookup { json },
    }
}

/// Goes on registering with the store's word on who holds the email.
pub fn register_lookup(json: RegisterModel, reply: Reply) -> (step: Step)
    ensures
        step@ == register_on_lookup(json@, reply@),
{
    match reply {
        Reply::User(None) => {
            let password_digest = digest(json.password.as_str());
            insert_registered(json, password_digest)
        },
        Reply::User(Some(_)) => refuse(409, "User with that email and type already exists"),
        other => fail(other),
    }
}

/// Asks the store to add the user; `password_digest` is stored in place
/// of the password.
pub fn insert_registered(json: RegisterModel, password_digest: String) -> (step: Step)
    ensures
        step@ == register_insertion(json@, password_digest@),
{
    Step::Ask {
        query: Query::InsertUser {
            name_first: json.name_first,
            name_last: json.name_last,
            email: json.email,
            password: password_digest,
            user_type: json.user_type,
        },
        flow: Flow::RegisterInsert,
    }
}

/// Ends registering with the store's word on the new user.
pub fn register_insert(reply: Reply) -> (step: Step)
    ensures
        step@ == register_on_insert(reply@),
{
    match reply {
        Reply::User(Some(user)) => accept(decimal_string(user.user_id as i64)),
        other => fail(other),
    }
}

/// The step that asks the store for the user with this email and type
/// and the given password digest.
pub open spec fn credentials_lookup(
    json: LoginView,
    password_digest: Seq<char>,
    now: usize,
) -> StepView {
    StepView::Ask {
        query: QueryView::UserByEmail {
            email: json.email,
            user_type: json.user_type,
            password: Some(password_digest),
        },
        flow: FlowView::LoginLookup { now },
    }
}

/// How logging in begins: the store is asked for the user with this email
/// and type and the digest of this password.
pub open spec fn login_start(json: LoginView, now: usize) -> StepView {
    credentials_lookup(json, sha256_hex(json.password), now)
}

/// The body that hands a token to who logged in.
pub open spec fn token_body(token: Seq<char>) -> Seq<char> {
    "{ 'token': "@ + token + "}"@
}

/// The response to a login, given how signing the token went: the token in
/// the body, or an internal error with the signer's reason.
pub open spec fn token_step(signing: Result<Seq<char>, Seq<char>>) -> StepView {
    match signing {
        Ok(token) => accepted(token_body(token)),
        Err(reason) => refused(500, reason),
    }
}

/// The claims of a token issued at `now`, valid for a day.
pub open spec fn login_claims(user: user::Row, now: usize) -> ClaimsView {
    issued_claims(user.email, user.user_id, now)
}

/// The claims that a login at `now` issues a token for, given the store's
/// word on the credentials: those of the user it found, if the expiry fits
/// the clock.
pub open spec fn issued_on(now: usize, reply: ReplyView) -> Option<ClaimsView> {
    match reply {
        ReplyView::User(Some(user)) => if now + TOKEN_LIFETIME <= usize::MAX {
            Some(login_claims(user, now))
        } else {
            None
        },
        _ => None,
    }
}

/// Logging in, once the store has looked for the user: with none the
/// credentials are not known; with one, a token is issued for them and
/// handed over in the body.
pub open spec fn login_on_lookup(secret: Seq<char>, now: usize, reply: ReplyView) -> StepView {
    match reply {
        ReplyView::User(Some(user)) => if now + TOKEN_LIFETIME <= usize::MAX {
            accepted(token_body(signed(login_claims(user, now), secret)))
        } else {
            refused(500, "token expiry is out of range"@)
        },
        ReplyView::User(None) => refused(404, "No user found for that email and password"@),
        _ => failure(reply),
    }
}

/// Begins logging a user in at time `now` (seconds since the Unix epoch).
pub fn begin_login(json: LoginModel, now: usize) -> (step: Step)
    ensures
        step@ == login_start(json@, now),
{
    let password_digest = digest(json.password.as_str());
    look_up_credentials(json, password_digest, now)
}

/// Asks the store for the user with the email and type of the request and
/// the given password digest.
pub fn look_up_credentials(json: LoginModel, password_digest: String, now: usize) -> (step: Step)
    ensures
        step@ == credentials_lookup(json@, password_digest@, now),
{
    Step::Ask {
        query: Query::UserByEmail {
            email: json.email,
            user_type: json.user_type,
            password: Some(password_digest),
        },
        flow: Flow::LoginLookup { now },
    }
}

/// Turns the outcome of signing a token into the response to a login.
pub fn token_response(signing: Result<String, SigningError>) -> (step: Step)
    ensures
        step@ == token_step(signing_of(signing)),
{
    match signing {
        Ok(token) => {
            let mut body = String::from_str("{ 'token': ");
            body.append(token.as_str());
            body.append("}");
            accept(body)
        },
        Err(error) => Step::Done(
            Err(ApiResponse { status_code: 500, body: error.message }),
        ),
    }
}

/// Ends logging in with the store's word on the credentials. A token that
/// is issued verifies, under the same secret, as the claims it was issued
/// for.
pub fn login_lookup(secret: &str, now: usize, reply: Reply) -> (step: Step)
    ensures
        step@ == login_on_lookup(secret@, now, reply@),
        issued_on(now, reply@) matches Some(claims) ==> verifies_as(
            signed(claims, secret@),
            secret@,
            claims,
        ),
{
    match reply {
        Reply::User(Some(user)) => {
            if now > usize::MAX - TOKEN_LIFETIME {
                return refuse(500, "token expiry is out of range");
            }
            token_response(encode_jwt(user.email, user.user_id, now, secret))
        },
        Reply::User(None) => refuse(404, "No user found for that email and password"),
        other => fail(other),
    }
}

/// What registering makes of a store. An unknown user type is refused
/// (422), and so is an email that is taken under that type (409); a store
/// that has no id left answers with an internal error (500). None of these
/// changes the store. Otherwise the user is added under the next id with
/// the digest of the password, and the response holds that id.
pub open spec fn register_outcome(s: State, json: RegisterView) -> (State, OutcomeView) {
    if !valid_user_type(json.user_type) {
        (s, Err(response(422, "Invalid user type, must be A or C"@)))
    } else if s.user_by_email(json.email, json.user_type) is Some {
        (s, Err(response(409, "User with that email and type already exists"@)))
    } else if s.user_ids >= i32::MAX {
        (s, Err(response(500, no_id_left())))
    } else {
        (
            s.insert_user(
                json.name_first,
                json.name_last,
                json.email,
                sha256_hex(json.password),
                json.user_type,
            ).0,
            Ok(response(200, decimal(s.user_ids + 1))),
        )
    }
}

/// Run against a store, the conversation that `begin_register` opens does
/// what `register_outcome` says.
pub proof fn lemma_register_runs(secret: Seq<char>, s: State, json: RegisterView)
    ensures
        run(secret, s, register_start(json)) == register_outcome(s, json),
{
    reveal_with_fuel(run, 3);
}

/// Registers a user in the store.
pub fn register(db: &mut Database, json: RegisterModel) -> (outcome: Result<
    ApiResponse,
    ApiResponse,
>)
    ensures
        (final(db)@, outcome_of(outcome)) == register_outcome(old(db)@, json@),
        old(db)@.wf() ==> final(db)@.wf(),
{
    proof {
        lemma_register_runs(""@, db@, json@);
    }
    serve(db, "", begin_register(json))
}

/// What logging in makes of a store: nothing. Unknown credentials are
/// refused (404). For known ones a token is issued at `now` for the user
/// that holds them, and the response holds it; if the expiry does not fit
/// the clock, the response is an internal error.
pub open spec fn login_outcome(s: State, secret: Seq<char>, json: LoginView, now: usize) -> (
    State,
    OutcomeView,
) {
    match s.user_by_credentials(json.email, json.user_type, sha256_hex(json.password)) {
        None => (s, Err(response(404, "No user found for that email and password"@))),
        Some(user) => if now + TOKEN_LIFETIME > usize::MAX {
            (s, Err(response(500, "token expiry is out of range"@)))
        } else {
            (s, Ok(response(200, token_body(signed(login_claims(user, now), secret)))))
        },
    }
}

/// The claims that a login issues a token for: those of the user that
/// holds the credentials, if there is one and the expiry fits the clock.
pub open spec fn login_issues(s: State, json: LoginView, now: usize) -> Option<ClaimsView> {
    issued_on(
        now,
        ReplyView::User(
            s.user_by_credentials(json.email, json.user_type, sha256_hex(json.password)),
        ),
    )
}

/// Run against a store, the conversation that `begin_login` opens does
/// what `login_outcome` says.
pub proof fn lemma_login_runs(secret: Seq<char>, s: State, json: LoginView, now: usize)
    ensures
        run(secret, s, login_start(json, now)) == login_outcome(s, secret, json, now),
{
    reveal_with_fuel(run, 3);
}

/// Logs a user in at time `now` (seconds since the Unix epoch); tokens are
/// signed with `secret`. The token that a successful login hands over
/// verifies, under the same secret, as exactly the claims it was issued
/// for.
pub fn login_user(db: &mut Database, secret: &str, json: LoginModel, now: usize) -> (outcome:
    Result<ApiResponse, ApiResponse>)
    ensures
        (final(db)@, outcome_of(outcome)) == login_outcome(old(db)@, secret@, json@, now),
        login_issues(old(db)@, json@, now) matches Some(claims) ==> verifies_as(
            signed(claims, secret@),
            secret@,
            claims,
        ),
{
    proof {
        lemma_login_runs(secret@, db@, json@, now);
        reveal_with_fuel(run, 2);
    }
    match begin_login(json, now) {
        Step::Ask { query, flow } => {
            let reply = db.perform(query);
            let next = resume(secret, flow, reply);
            serve(db, secret, next)
        },
        Step::Done(outcome) => outcome,
    }
}

} // verus!
