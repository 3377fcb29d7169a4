//! Identity tokens: signed, time-limited claims about who is calling.

use vstd::prelude::*;
use crate::utils::text::text_of;

verus! {

/// How long a token stays valid after it was issued, in seconds.
pub const TOKEN_LIFETIME: usize = 86400;

/// The identity a token carries: who the caller is, when the token was
/// issued and when it expires (both in seconds since the Unix epoch).
#[derive(Debug, PartialEq, Eq)]
pub struct Claims {
    pub exp: usize,
    pub iat: usize,
    pub email: String,
    pub user_id: i32,
}

/// `Claims` as a mathematical value.
pub struct ClaimsView {
    pub exp: usize,
    pub iat: usize,
    pub email: Seq<char>,
    pub user_id: i32,
}

impl View for Claims {
    type V = ClaimsView;

    open spec fn view(&self) -> ClaimsView {
        ClaimsView { exp: self.exp, iat: self.iat, email: self.email@, user_id: self.user_id }
    }
}

impl Clone for Claims {
    fn clone(&self) -> (copy: Self)
        ensures
            copy == *self,
    {
        Claims { exp: self.exp, iat: self.iat, email: self.email.clone(), user_id: self.user_id }
    }
}

/// Why no token could be issued.
#[derive(Debug, PartialEq, Eq)]
pub struct SigningError {
    pub message: String,
}

/// Why a token was not accepted.
#[derive(Debug, PartialEq, Eq)]
pub struct InvalidTokenError {
    pub message: String,
}

/// The claims of a token issued at `now` for the given user: valid from
/// `now` for `TOKEN_LIFETIME` seconds.
pub open spec fn issued_claims(email: Seq<char>, user_id: i32, now: usize) -> ClaimsView {
    ClaimsView { exp: (now + TOKEN_LIFETIME) as usize, iat: now, email, user_id }
}

/// The token that `jsonwebtoken::encode` returns, with the default header
/// (HS256) and a key made from `secret`, for a claim object of four members
/// in this order: two unsigned numbers, a text and a signed number, each
/// under its name.
pub uninterp spec fn hs256_token(
    first: (Seq<char>, u64),
    second: (Seq<char>, u64),
    third: (Seq<char>, Seq<char>),
    fourth: (Seq<char>, i64),
    secret: Seq<char>,
) -> Seq<char>;

/// Four members of a claim object, each as far as it is there: two
/// unsigned numbers, a text and a signed number.
pub type Members = (Option<u64>, Option<u64>, Option<Seq<char>>, Option<i64>);

/// What `jsonwebtoken::decode` returns for a token, with a key made from
/// `secret` and the default validation (HS256) without the test of the
/// expiry against the clock. `Ok` holds the members of the token's claim
/// object under the four names: the first two as `serde_json::Value::as_u64`
/// reads them, the third as `as_str`, the fourth as `as_i64`; a member is
/// absent where the object has none of that name or one of another kind.
/// `Err` holds the text of the library's error.
pub uninterp spec fn hs256_members(
    jwt: Seq<char>,
    secret: Seq<char>,
    first: Seq<char>,
    second: Seq<char>,
    third: Seq<char>,
    fourth: Seq<char>,
) -> Result<Members, Seq<char>>;

/// The view of a text or the text of an error.
pub open spec fn texts_of(result: Result<String, String>) -> Result<Seq<char>, Seq<char>> {
    match result {
        Ok(text) => Ok(text@),
        Err(text) => Err(text@),
    }
}

/// The outcome of a signing that succeeded with this token.
pub open spec fn signed_text(token: Seq<char>) -> Result<Seq<char>, Seq<char>> {
    Ok(token)
}

/// What a verifier reads from a claim object that holds all four members.
pub open spec fn all_members(first: u64, second: u64, third: Seq<char>, fourth: i64) -> Result<
    Members,
    Seq<char>,
> {
    Ok((Some(first), Some(second), Some(third), Some(fourth)))
}

/// Calls `jsonwebtoken::encode` with `Header::default()` and
/// `EncodingKey::from_secret` on a JSON object that holds the four members
/// in the order given. Taken on trust:
/// - the call succeeds: with this header and such a key and object the
///   library has no error to give;
/// - the token is a function of the arguments alone, written `hs256_token`;
/// - a token whose members are named `exp`, `iat`, `email` and `user_id`
///   is accepted by `jsonwebtoken::decode` under the same secret, as far
///   as the clock is not asked, and holds the members that were signed.
#[verifier::external_body]
fn sign_members(
    first: (&str, u64),
    second: (&str, u64),
    third: (&str, &str),
    fourth: (&str, i64),
    secret: &str,
) -> (token: Result<String, String>)
    ensures
        texts_of(token) == signed_text(
            hs256_token(
                (first.0@, first.1),
                (second.0@, second.1),
                (third.0@, third.1@),
                (fourth.0@, fourth.1),
                secret@,
            ),
        ),
        first.0@ == "exp"@ && second.0@ == "iat"@ && third.0@ == "email"@ && fourth.0@
            == "user_id"@ ==> hs256_members(
            texts_of(token)->Ok_0,
            secret@,
            first.0@,
            second.0@,
            third.0@,
            fourth.0@,
        ) == all_members(first.1, second.1, third.1@, fourth.1),
{
    let mut object = serde_json::Map::new();
    object.insert(first.0.to_string(), serde_json::Value::from(first.1));
    object.insert(second.0.to_string(), serde_json::Value::from(second.1));
    object.insert(third.0.to_string(), serde_json::Value::from(third.1));
    object.insert(fourth.0.to_string(), serde_json::Value::from(fourth.1));
    let key = jsonwebtoken::EncodingKey::from_secret(secret.as_bytes());
    jsonwebtoken::encode(&jsonwebtoken::Header::default(), &object, &key).map_err(|e| e.to_string())
}

/// Calls `jsonwebtoken::decode` with `DecodingKey::from_secret` and
/// `Validation::default()` with `validate_exp` switched off, so that the
/// signature (HS256) is checked and the clock is not read; from the claim
/// object of an accepted token it reads four members with
/// `serde_json::Value::get` and `as_u64`, `as_str` or `as_i64`. A refusal
/// is handed back as the text of the library's error. The outcome is taken
/// on trust to be a function of the arguments alone, written
/// `hs256_members`.
#[verifier::external_body]
fn verified_members(
    jwt: &str,
    secret: &str,
    first: &str,
    second: &str,
    third: &str,
    fourth: &str,
) -> (members: Result<(Option<u64>, Option<u64>, Option<String>, Option<i64>), String>)
    ensures
        members_of(members) == hs256_members(jwt@, secret@, first@, second@, third@, fourth@),
{
    let key = jsonwebtoken::DecodingKey::from_secret(secret.as_bytes());
    let mut validation = jsonwebtoken::Validation::default();
    validation.validate_exp = false;
    let object = jsonwebtoken::decode::<serde_json::Value>(jwt, &key, &validation).map_err(
        |e| e.to_string(),
    )?.claims;
    Ok(
        (
            object.get(first).and_then(serde_json::Value::as_u64),
            object.get(second).and_then(serde_json::Value::as_u64),
            object.get(third).and_then(serde_json::Value::as_str).map(str::to_string),
            object.get(fourth).and_then(serde_json::Value::as_i64),
        ),
    )
}

/// The view of the members that were read, or of the text of an error.
pub open spec fn members_of(
    members: Result<(Option<u64>, Option<u64>, Option<String>, Option<i64>), String>,
) -> Result<Members, Seq<char>> {
    match members {
        Ok(found) => Ok((found.0, found.1, text_of(found.2), found.3)),
        Err(reason) => Err(reason@),
    }
}

/// The token that stands for the given claims under `secret`.
pub open spec fn signed(claims: ClaimsView, secret: Seq<char>) -> Seq<char> {
    hs256_token(
        ("exp"@, claims.exp as u64),
        ("iat"@, claims.iat as u64),
        ("email"@, claims.email),
        ("user_id"@, claims.user_id as i64),
        secret,
    )
}

/// What the verifier reads from a token under `secret`: the members
/// `exp`, `iat`, `email` and `user_id`, or the text of its refusal.
pub open spec fn read_members(jwt: Seq<char>, secret: Seq<char>) -> Result<Members, Seq<char>> {
    hs256_members(jwt, secret, "exp"@, "iat"@, "email"@, "user_id"@)
}

/// Whether a token, verified under `secret`, holds exactly these claims.
pub open spec fn verifies_as(jwt: Seq<char>, secret: Seq<char>, claims: ClaimsView) -> bool {
    read_members(jwt, secret) == all_members(
        claims.exp as u64,
        claims.iat as u64,
        claims.email,
        claims.user_id as i64,
    )
}

/// What `encode_jwt` hands back, as a mathematical value.
pub open spec fn signing_of(result: Result<String, SigningError>) -> Result<Seq<char>, Seq<char>> {
    match result {
        Ok(token) => Ok(token@),
        Err(error) => Err(error.message@),
    }
}

/// Signs the given claims with `secret`. Signing succeeds; the token is
/// the one that stands for the claims, and verified under the same secret
/// it holds exactly these claims.
pub fn sign_claims(claims: &Claims, secret: &str) -> (token: Result<String, SigningError>)
    ensures
        signing_of(token) == Ok::<_, Seq<char>>(signed(claims@, secret@)),
        verifies_as(signed(claims@, secret@), secret@, claims@),
{
    let outcome = sign_members(
        ("exp", claims.exp as u64),
        ("iat", claims.iat as u64),
        ("email", claims.email.as_str()),
        ("user_id", claims.user_id as i64),
        secret,
    );
    match outcome {
        Ok(token) => Ok(token),
        Err(message) => Err(SigningError { message }),
    }
}

/// Issues a token for the user at time `now` (seconds since the Unix
/// epoch): it is valid from `now` for `TOKEN_LIFETIME` seconds and signed
/// with `secret`. Verified under the same secret it holds exactly the
/// claims it was issued for.
pub fn encode_jwt(email: String, user_id: i32, now: usize, secret: &str) -> (token: Result<
    String,
    SigningError,
>)
    requires
        now + TOKEN_LIFETIME <= usize::MAX,
    ensures
        signing_of(token) == Ok::<_, Seq<char>>(
            signed(issued_claims(email@, user_id, now), secret@),
        ),
        verifies_as(
            signed(issued_claims(email@, user_id, now), secret@),
            secret@,
            issued_claims(email@, user_id, now),
        ),
{
    let claims = Claims { exp: now + TOKEN_LIFETIME, iat: now, email, user_id };
    sign_claims(&claims, secret)
}

/// The claims that four members of a claim object make up, if they make
/// up any: each member is present, each number fits its field, and the
/// claims hold the members unchanged.
pub open spec fn claims_of_members(
    exp: Option<u64>,
    iat: Option<u64>,
    email: Option<Seq<char>>,
    user_id: Option<i64>,
) -> Option<ClaimsView> {
    if exp is Some && exp->0 <= usize::MAX && iat is Some && iat->0 <= usize::MAX && email is Some
        && user_id is Some && i32::MIN <= user_id->0 <= i32::MAX {
        Some(
            ClaimsView {
                exp: exp->0 as usize,
                iat: iat->0 as usize,
                email: email->0,
                user_id: user_id->0 as i32,
            },
        )
    } else {
        None
    }
}

/// Builds `Claims` from the members of a verified claim object: the claims
/// that the members make up, or a refusal where they make up none.
pub fn claims_from_members(
    exp: Option<u64>,
    iat: Option<u64>,
    email: Option<String>,
    user_id: Option<i64>,
) -> (claims: Result<Claims, InvalidTokenError>)
    ensures
        match claims {
            Ok(made) => claims_of_members(exp, iat, text_of(email), user_id) == Some(made@),
            Err(error) => claims_of_members(exp, iat, text_of(email), user_id) is None
                && error.message@ == "token claims are incomplete"@,
        },
{
    match (exp, iat, email, user_id) {
        (Some(e), Some(i), Some(email), Some(u)) => {
            if e <= usize::MAX as u64 && i <= usize::MAX as u64 && i32::MIN as i64 <= u && u
                <= i32::MAX as i64 {
                return Ok(Claims { exp: e as usize, iat: i as usize, email, user_id: u as i32 });
            }
        },
        _ => {},
    }
    Err(InvalidTokenError { message: String::from_str("token claims are incomplete") })
}

/// Whether claims have expired at time `now`: their expiry lies before it.
pub open spec fn expired(claims: ClaimsView, now: usize) -> bool {
    claims.exp < now
}

/// What verifying a token at time `now` comes to. The verifier's refusal
/// stands, with its reason; so does a refusal of members that make up no
/// claims, and of claims that have expired. Otherwise the token's claims
/// are accepted.
pub open spec fn decoded(jwt: Seq<char>, secret: Seq<char>, now: usize) -> Result<
    ClaimsView,
    Seq<char>,
> {
    match read_members(jwt, secret) {
        Err(reason) => Err(reason),
        Ok(members) => match claims_of_members(members.0, members.1, members.2, members.3) {
            None => Err("token claims are incomplete"@),
            Some(claims) => if expired(claims, now) {
                Err("ExpiredSignature"@)
            } else {
                Ok(claims)
            },
        },
    }
}

/// What `decode_jwt` hands back, as a mathematical value.
pub open spec fn decoding_of(result: Result<Claims, InvalidTokenError>) -> Result<
    ClaimsView,
    Seq<char>,
> {
    match result {
        Ok(claims) => Ok(claims@),
        Err(error) => Err(error.message@),
    }
}

/// Verifies a token against `secret` at time `now` (seconds since the Unix
/// epoch) and reads its claims: the signature must hold, the members must
/// make up claims, and the claims must not have expired.
pub fn decode_jwt(jwt: &str, secret: &str, now: usize) -> (claims: Result<
    Claims,
    InvalidTokenError,
>)
    ensures
        decoding_of(claims) == decoded(jwt@, secret@, now),
{
    match verified_members(jwt, secret, "exp", "iat", "email", "user_id") {
        Ok(members) => match claims_from_members(members.0, members.1, members.2, members.3) {
            Ok(claims) => {
                if claims.exp < now {
                    Err(InvalidTokenError { message: String::from_str("ExpiredSignature") })
                } else {
                    Ok(claims)
                }
            },
            Err(error) => Err(error),
        },
        Err(message) => Err(InvalidTokenError { message }),
    }
}

/// A token that verifies as some claims is accepted with exactly these
/// claims at every time up to their expiry, and refused as expired after.
pub proof fn verifying_token_is_accepted_until_expiry(
    jwt: Seq<char>,
    secret: Seq<char>,
    claims: ClaimsView,
    now: usize,
)
    requires
        verifies_as(jwt, secret, claims),
    ensures
        now <= claims.exp ==> decoded(jwt, secret, now) == Ok::<_, Seq<char>>(claims),
        now > claims.exp ==> decoded(jwt, secret, now) == Err::<ClaimsView, _>(
            "ExpiredSignature"@,
        ),
{
}

} // verus!
