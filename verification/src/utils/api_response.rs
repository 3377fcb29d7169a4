//! The reply to a request: an HTTP status code and a plain-text body.

use vstd::prelude::*;
use crate::utils::text::{decimal, push_decimal};

verus! {

/// A status code and a body. A service hands one back as `Ok` when the
/// request was carried out and as `Err` when it was refused.
#[derive(Debug, PartialEq, Eq)]
pub struct ApiResponse {
    pub status_code: u16,
    pub body: String,
}

/// An `ApiResponse` as a mathematical value.
pub struct ResponseView {
    pub status_code: u16,
    pub body: Seq<char>,
}

impl View for ApiResponse {
    type V = ResponseView;

    open spec fn view(&self) -> ResponseView {
        ResponseView { status_code: self.status_code, body: self.body@ }
    }
}

/// What a service hands back, as a mathematical value.
pub type OutcomeView = Result<ResponseView, ResponseView>;

/// The view of a service's result.
pub open spec fn outcome_of(outcome: Result<ApiResponse, ApiResponse>) -> OutcomeView {
    match outcome {
        Ok(response) => Ok(response@),
        Err(response) => Err(response@),
    }
}

/// The response with the given status and body.
pub open spec fn response(status_code: u16, body: Seq<char>) -> ResponseView {
    ResponseView { status_code, body }
}

/// Whether a number is usable as an HTTP status code.
pub open spec fn is_status_code(code: u16) -> bool {
    100 <= code <= 999
}

impl ApiResponse {
    /// A response with the given status and body.
    pub fn new(status_code: u16, body: String) -> (made: ApiResponse)
        requires
            is_status_code(status_code),
        ensures
            made@ == response(status_code, body@),
    {
        ApiResponse { status_code, body }
    }

    /// The text of this response when it is reported as an error.
    pub open spec fn error_text(self) -> Seq<char> {
        "Error: "@ + self.body@ + " \n Status Code: "@ + decimal(self.status_code as int)
    }

    /// Renders this response as an error report: the body, then the status.
    pub fn to_text(&self) -> (text: String)
        ensures
            text@ == self.error_text(),
    {
        let mut text = String::from_str("Error: ");
        text.append(self.body.as_str());
        text.append(" \n Status Code: ");
        push_decimal(&mut text, self.status_code as i64);
        text
    }
}

impl Clone for ApiResponse {
    fn clone(&self) -> (copy: Self)
        ensures
            copy == *self,
    {
        ApiResponse { status_code: self.status_code, body: self.body.clone() }
    }
}

} // verus!
