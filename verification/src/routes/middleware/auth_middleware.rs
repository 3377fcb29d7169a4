//! Who is calling: from the `Authorization` header to the caller's claims.

use vstd::prelude::*;
use crate::utils::api_response::{response, ApiResponse, ResponseView};
use crate::utils::jwt::{decode_jwt, decoded, Claims, ClaimsView, InvalidTokenError};

verus! {

/// The `Authorization` header of a request, as far as it can be read.
#[derive(Debug, PartialEq, Eq)]
pub enum AuthHeader {
    /// The request has no such header.
    Missing,
    /// The header holds bytes that are not text.
    Unreadable,
    /// The header's text.
    Text(String),
}

/// What stands before the token in the header.
pub open spec fn bearer_prefix() -> Seq<char> {
    "Bearer "@
}

/// The token that a header carries: what follows `"Bearer "`, or the whole
/// text when it does not begin so.
pub open spec fn token_of(header: Seq<char>) -> Seq<char> {
    if bearer_prefix().is_prefix_of(header) {
        header.subrange(bearer_prefix().len() as int, header.len() as int)
    } else {
        header
    }
}

/// Takes the token out of the header's text.
pub fn bearer_token(header: &str) -> (token: String)
    ensures
        token@ == token_of(header@),
{
    proof {
        reveal_strlit("Bearer ");
    }
    let length = header.unicode_len();
    if length >= 7 && header.get_char(0) == 'B' && header.get_char(1) == 'e' && header.get_char(2)
        == 'a' && header.get_char(3) == 'r' && header.get_char(4) == 'e' && header.get_char(5)
        == 'r' && header.get_char(6) == ' ' {
        assert(bearer_prefix() =~= header@.subrange(0, 7));
        header.substring_char(7, length).to_owned()
    } else {
        assert(!bearer_prefix().is_prefix_of(header@)) by {
            if bearer_prefix().is_prefix_of(header@) {
                let front = header@.subrange(0, 7);
                assert(front[0] == 'B' && front[1] == 'e' && front[2] == 'a' && front[3] == 'r'
                    && front[4] == 'e' && front[5] == 'r' && front[6] == ' ');
            }
        }
        header.to_owned()
    }
}

/// What a caller without a valid token is told.
pub open spec fn unauthorized() -> ResponseView {
    response(401, "Unauthorized"@)
}

/// The view of claims or a refusal.
pub open spec fn claims_or_refusal(result: Result<Claims, ApiResponse>) -> Result<
    ClaimsView,
    ResponseView,
> {
    match result {
        Ok(claims) => Ok(claims@),
        Err(refusal) => Err(refusal@),
    }
}

/// What the verifier's word on a token comes to: the claims of an accepted
/// token, or a refusal (401).
pub open spec fn authorized(decoded: Result<Claims, InvalidTokenError>) -> Result<
    ClaimsView,
    ResponseView,
> {
    match decoded {
        Ok(claims) => Ok(claims@),
        Err(_) => Err(unauthorized()),
    }
}

/// Admits the caller whose token was accepted and refuses any other.
pub fn authorize(decoded: Result<Claims, InvalidTokenError>) -> (result: Result<
    Claims,
    ApiResponse,
>)
    ensures
        claims_or_refusal(result) == authorized(decoded),
{
    match decoded {
        Ok(claims) => Ok(claims),
        Err(_) => Err(ApiResponse { status_code: 401, body: String::from_str("Unauthorized") }),
    }
}

/// Who is admitted on a header at time `now`. A request without the
/// header is refused (401), one whose header is not text is refused (400).
/// Otherwise the header's token is verified under `secret`: the caller is
/// admitted with the token's claims, or refused (401) where the token is
/// not accepted or has expired.
pub open spec fn admitted(header: AuthHeader, secret: Seq<char>, now: usize) -> Result<
    ClaimsView,
    ResponseView,
> {
    match header {
        AuthHeader::Missing => Err(unauthorized()),
        AuthHeader::Unreadable => Err(response(400, "Bad request"@)),
        AuthHeader::Text(text) => match decoded(token_of(text@), secret, now) {
            Ok(claims) => Ok(claims),
            Err(_) => Err(unauthorized()),
        },
    }
}

/// Decides from the `Authorization` header who is calling at time `now`
/// (seconds since the Unix epoch); tokens are verified under `secret`.
pub fn check_auth_middleware(header: AuthHeader, secret: &str, now: usize) -> (result: Result<
    Claims,
    ApiResponse,
>)
    ensures
        claims_or_refusal(result) == admitted(header, secret@, now),
{
    match header {
        AuthHeader::Missing => Err(
            ApiResponse { status_code: 401, body: String::from_str("Unauthorized") },
        ),
        AuthHeader::Unreadable => Err(
            ApiResponse { status_code: 400, body: String::from_str("Bad request") },
        ),
        AuthHeader::Text(text) => {
            let token = bearer_token(text.as_str());
            authorize(decode_jwt(token.as_str(), secret, now))
        },
    }
}

} // verus!
