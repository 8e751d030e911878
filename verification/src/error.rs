//! The error taxonomy and its mapping to protocol-level responses: which
//! HTTP status code each failure category answers with, and the JSON error
//! body that carries the message.

use vstd::prelude::*;

verus! {

/// A request's failure categories: bad input is the caller's fault, every
/// other category the server's.
#[derive(Debug)]
pub enum AppError {
    BadRequest(String),
    InternalServerError(String),
    ConfigError(String),
    Other(String),
}

/// What a string looks like inside a JSON document: quoted, with the
/// escapes JSON wants. Named after the result of `serde_json::to_string`,
/// which computes it.
pub uninterp spec fn json_quoted(s: Seq<char>) -> Seq<char>;

/// Relies on `serde_json::to_string`: a string slice serialises to its JSON
/// string literal, the result depends on the characters alone, and
/// serialising a string never fails.
#[verifier::external_body]
fn json_quote(s: &str) -> (r: String)
    ensures
        r@ == json_quoted(s@),
{
    match serde_json::to_string(s) {
        Ok(quoted) => quoted,
        Err(_) => String::new(),
    }
}

/// The JSON error body: an object with a single `error` field holding the
/// message.
pub open spec fn spec_json_error_body(msg: Seq<char>) -> Seq<char> {
    "{\"error\":"@ + json_quoted(msg) + "}"@
}

impl AppError {
    /// The status code the category maps to: 400 for bad input, 500 for
    /// everything else.
    pub open spec fn spec_status(&self) -> u16 {
        match self {
            AppError::BadRequest(_) => 400,
            _ => 500,
        }
    }

    /// The message shown to the caller: what the two request-level
    /// categories carry; an opaque constant for the rest, whose detail is
    /// never exposed.
    pub open spec fn spec_message(&self) -> Seq<char> {
        match self {
            AppError::BadRequest(m) => m@,
            AppError::InternalServerError(m) => m@,
            _ => "Unknown error"@,
        }
    }

    /// The HTTP status code and JSON body this error answers with.
    pub fn response_parts(&self) -> (r: (u16, String))
        ensures
            r.0 == self.spec_status(),
            r.1@ == spec_json_error_body(self.spec_message()),
    {
        let status: u16 = match self {
            AppError::BadRequest(_) => 400,
            _ => 500,
        };
        let message: &str = match self {
            AppError::BadRequest(m) => m.as_str(),
            AppError::InternalServerError(m) => m.as_str(),
            _ => "Unknown error",
        };
        let quoted = json_quote(message);
        let mut body = String::from_str("{\"error\":");
        body.append(quoted.as_str());
        body.append("}");
        (status, body)
    }
}

} // verus!
