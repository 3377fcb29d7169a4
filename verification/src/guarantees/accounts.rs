//! What holds of accounts across operations: a registered user can log in,
//! an email is registered once per type, and a new password replaces the
//! old one.

use vstd::prelude::*;
use crate::entities::user;
use crate::routes::services::auth_service::{
    issued_on,
    login_claims,
    login_issues,
    token_body,
    login_outcome,
    register_outcome,
    valid_user_type,
};
use crate::routes::services::user_service::reset_outcome;
use crate::store::constraints::{lemma_insert_user_keeps_wf, lemma_update_user_keeps_wf};
use crate::store::search::{first_match, lemma_position, position};
use crate::store::state::{patched, user_with_email, user_with_id, State};
use crate::utils::api_response::{response, OutcomeView, ResponseView};
use crate::utils::jwt::{signed, ClaimsView, TOKEN_LIFETIME};
use crate::utils::password::sha256_hex;
use crate::store::query::ReplyView;
use crate::utils::request_models::auth_models::{LoginView, RegisterView};
use crate::utils::text::{decimal, trimmed};

verus! {

/// The response to a login that found `user`: success with the token
/// issued for them at `now`, or an internal error when the expiry does not
/// fit the clock.
pub open spec fn token_for(user: user::Row, secret: Seq<char>, now: usize) -> OutcomeView {
    if now + TOKEN_LIFETIME > usize::MAX {
        Err(response(500, "token expiry is out of range"@))
    } else {
        Ok(response(200, token_body(signed(login_claims(user, now), secret))))
    }
}

/// The login request that repeats what a user registered with.
pub open spec fn login_of(json: RegisterView, password: Seq<char>) -> LoginView {
    LoginView { user_type: json.user_type, email: json.email, password }
}

/// The row that registering adds to a store.
pub open spec fn registered_row(s: State, json: RegisterView) -> user::Row {
    user::Row {
        user_id: (s.user_ids + 1) as i32,
        name_first: json.name_first,
        name_last: json.name_last,
        email: json.email,
        password: sha256_hex(json.password),
        user_type: json.user_type,
    }
}

/// In a store whose constraints hold, the user at a position is the only
/// one with their email and type: a lookup by these, with or without a
/// password digest, finds them or, if the digest is not theirs, nobody.
proof fn lemma_lookup_by_email(s: State, at: int, password: Option<Seq<char>>)
    requires
        s.wf(),
        0 <= at < s.users.len(),
    ensures
        ({
            let user = s.users[at];
            let found = first_match(
                s.users,
                user_with_email(user.email, user.user_type, password),
            );
            if password is None || password == Some(user.password) {
                found == Some(user)
            } else {
                found is None
            }
        }),
{
    let user = s.users[at];
    let wanted = user_with_email(user.email, user.user_type, password);
    lemma_position(s.users, wanted);
    let found_at = position(s.users, wanted);
    if found_at < s.users.len() && found_at != at {
        assert(s.users[found_at].email == s.users[at].email);
    }
}

/// After a successful registration, logging in with the same email,
/// password and type finds the user that was registered and answers with
/// the token issued for them; it succeeds at every time whose expiry fits
/// the clock.
pub proof fn registered_user_can_log_in(
    s: State,
    secret: Seq<char>,
    json: RegisterView,
    now: usize,
)
    requires
        s.wf(),
        register_outcome(s, json).1 is Ok,
    ensures
        login_outcome(register_outcome(s, json).0, secret, login_of(json, json.password), now) == (
            register_outcome(s, json).0,
            token_for(registered_row(s, json), secret, now),
        ),
        now + TOKEN_LIFETIME <= usize::MAX ==> login_outcome(
            register_outcome(s, json).0,
            secret,
            login_of(json, json.password),
            now,
        ).1 is Ok,
        login_issues(register_outcome(s, json).0, login_of(json, json.password), now) == issued_on(
            now,
            ReplyView::User(Some(registered_row(s, json))),
        ),
{
    let after = register_outcome(s, json).0;
    lemma_insert_user_keeps_wf(
        s,
        json.name_first,
        json.name_last,
        json.email,
        sha256_hex(json.password),
        json.user_type,
    );
    let at = s.users.len() as int;
    assert(after.users[at] == registered_row(s, json));
    lemma_lookup_by_email(after, at, Some(sha256_hex(json.password)));
}

/// After a successful registration, logging in with a password of another
/// digest is refused: no user is found.
pub proof fn wrong_password_is_refused(
    s: State,
    secret: Seq<char>,
    json: RegisterView,
    password: Seq<char>,
    now: usize,
)
    requires
        s.wf(),
        register_outcome(s, json).1 is Ok,
        sha256_hex(password) != sha256_hex(json.password),
    ensures
        login_outcome(register_outcome(s, json).0, secret, login_of(json, password), now) == (
            register_outcome(s, json).0,
            Err::<ResponseView, _>(
                response(404, "No user found for that email and password"@),
            ),
        ),
{
    let after = register_outcome(s, json).0;
    lemma_insert_user_keeps_wf(
        s,
        json.name_first,
        json.name_last,
        json.email,
        sha256_hex(json.password),
        json.user_type,
    );
    let at = s.users.len() as int;
    assert(after.users[at] == registered_row(s, json));
    lemma_lookup_by_email(after, at, Some(sha256_hex(password)));
}

/// After a successful registration, logging in with the same email and
/// password under another type is refused, unless an account of that type
/// held the email with that password before.
pub proof fn wrong_type_is_refused(
    s: State,
    secret: Seq<char>,
    json: RegisterView,
    user_type: Seq<char>,
    now: usize,
)
    requires
        register_outcome(s, json).1 is Ok,
        user_type != json.user_type,
        s.user_by_credentials(json.email, user_type, sha256_hex(json.password)) is None,
    ensures
        login_outcome(
            register_outcome(s, json).0,
            secret,
            LoginView { user_type, email: json.email, password: json.password },
            now,
        ) == (
            register_outcome(s, json).0,
            Err::<ResponseView, _>(
                response(404, "No user found for that email and password"@),
            ),
        ),
{
    let after = register_outcome(s, json).0;
    let wanted = user_with_email(json.email, user_type, Some(sha256_hex(json.password)));
    lemma_position(s.users, wanted);
    lemma_position(after.users, wanted);
    let found_at = position(after.users, wanted);
    if found_at < after.users.len() {
        if found_at < s.users.len() {
            assert(after.users[found_at] == s.users[found_at]);
        }
    }
}

/// Registering an email a second time under the same type is refused as a
/// conflict, and leaves the store as it is.
pub proof fn second_registration_conflicts(s: State, json: RegisterView, again: RegisterView)
    requires
        s.wf(),
        register_outcome(s, json).1 is Ok,
        again.email == json.email,
        again.user_type == json.user_type,
    ensures
        register_outcome(register_outcome(s, json).0, again) == (
            register_outcome(s, json).0,
            Err::<ResponseView, _>(
                response(409, "User with that email and type already exists"@),
            ),
        ),
{
    let after = register_outcome(s, json).0;
    lemma_insert_user_keeps_wf(
        s,
        json.name_first,
        json.name_last,
        json.email,
        sha256_hex(json.password),
        json.user_type,
    );
    let at = s.users.len() as int;
    assert(after.users[at] == registered_row(s, json));
    lemma_lookup_by_email(after, at, None);
}

/// Registering the same email under the other type succeeds, provided that
/// the email was free under that type and the store has an id left.
pub proof fn other_type_registers(s: State, json: RegisterView, other: RegisterView)
    requires
        register_outcome(s, json).1 is Ok,
        other.email == json.email,
        other.user_type != json.user_type,
        valid_user_type(other.user_type),
        s.user_by_email(other.email, other.user_type) is None,
        s.user_ids + 1 < i32::MAX,
    ensures
        register_outcome(register_outcome(s, json).0, other).1 == Ok::<_, ResponseView>(response(200, decimal(s.user_ids + 2))),
{
    let after = register_outcome(s, json).0;
    let wanted = user_with_email(other.email, other.user_type, None);
    lemma_position(s.users, wanted);
    lemma_position(after.users, wanted);
    let found_at = position(after.users, wanted);
    if found_at < after.users.len() {
        if found_at < s.users.len() {
            assert(after.users[found_at] == s.users[found_at]);
        }
    }
}

/// After a successful password reset, logging in with a password whose
/// digest is that of the trimmed new password finds the caller and answers
/// with the token issued for them; it succeeds at every time whose expiry
/// fits the clock. This holds of the new password itself whenever
/// trimming does not change its digest.
pub proof fn new_password_logs_in(
    s: State,
    secret: Seq<char>,
    claim_data: ClaimsView,
    old_pass: Seq<char>,
    new_pass: Seq<char>,
    password: Seq<char>,
    now: usize,
)
    requires
        s.wf(),
        reset_outcome(s, claim_data, old_pass, new_pass).1 is Ok,
        sha256_hex(password) == sha256_hex(trimmed(new_pass)),
    ensures
        s.user(claim_data.user_id) is Some,
        ({
            let user = s.user(claim_data.user_id)->0;
            let after = reset_outcome(s, claim_data, old_pass, new_pass).0;
            login_outcome(
                after,
                secret,
                LoginView { user_type: user.user_type, email: user.email, password },
                now,
            ) == (
                after,
                token_for(
                    patched(user, None, None, None, Some(sha256_hex(password))),
                    secret,
                    now,
                ),
            )
        }),
        now + TOKEN_LIFETIME <= usize::MAX ==> ({
            let user = s.user(claim_data.user_id)->0;
            login_outcome(
                reset_outcome(s, claim_data, old_pass, new_pass).0,
                secret,
                LoginView { user_type: user.user_type, email: user.email, password },
                now,
            ).1 is Ok
        }),
{
    let user = s.user(claim_data.user_id)->0;
    let after = reset_outcome(s, claim_data, old_pass, new_pass).0;
    let digest = sha256_hex(trimmed(new_pass));
    lemma_position(s.users, user_with_id(claim_data.user_id, None));
    lemma_position(s.users, user_with_id(user.user_id, None));
    lemma_update_user_keeps_wf(s, user.user_id, None, None, None, Some(digest));
    let at = position(s.users, user_with_id(user.user_id, None));
    assert(after.users[at] == patched(user, None, None, None, Some(digest)));
    lemma_lookup_by_email(after, at, Some(sha256_hex(password)));
}

/// After a successful password reset, logging in with a password of
/// another digest than that of the trimmed new password is refused. This
/// holds of the old password whenever its digest differs.
pub proof fn old_password_is_refused(
    s: State,
    secret: Seq<char>,
    claim_data: ClaimsView,
    old_pass: Seq<char>,
    new_pass: Seq<char>,
    password: Seq<char>,
    now: usize,
)
    requires
        s.wf(),
        reset_outcome(s, claim_data, old_pass, new_pass).1 is Ok,
        sha256_hex(password) != sha256_hex(trimmed(new_pass)),
    ensures
        s.user(claim_data.user_id) is Some,
        ({
            let user = s.user(claim_data.user_id)->0;
            let after = reset_outcome(s, claim_data, old_pass, new_pass).0;
            login_outcome(
                after,
                secret,
                LoginView { user_type: user.user_type, email: user.email, password },
                now,
            ) == (
                after,
                Err::<ResponseView, _>(
                    response(404, "No user found for that email and password"@),
                ),
            )
        }),
{
    let user = s.user(claim_data.user_id)->0;
    let after = reset_outcome(s, claim_data, old_pass, new_pass).0;
    let digest = sha256_hex(trimmed(new_pass));
    lemma_position(s.users, user_with_id(claim_data.user_id, None));
    lemma_position(s.users, user_with_id(user.user_id, None));
    lemma_update_user_keeps_wf(s, user.user_id, None, None, None, Some(digest));
    let at = position(s.users, user_with_id(user.user_id, None));
    assert(after.users[at] == patched(user, None, None, None, Some(digest)));
    lemma_lookup_by_email(after, at, Some(sha256_hex(password)));
}

} // verus!
