//! A failed call to the identity-api or the issuer-admin-api, as the route
//! views describe it to the user, and the HTTP status line that those
//! descriptions quote.

use vstd::prelude::*;
use crate::text::decimal;

verus! {

/// A failed API call: either the request never got a response (the
/// transport error's message), or the server answered with a non-success
/// status, with the response body when it could be read.
#[derive(Clone, Debug, PartialEq)]
pub enum HubError {
    Transport(String),
    Response { status: u16, body: Option<String> },
}

impl HubError {
    /// A response status is a three-digit HTTP status code.
    pub open spec fn well_formed(&self) -> bool {
        match self {
            HubError::Transport(_) => true,
            HubError::Response { status, .. } => 100 <= *status <= 999,
        }
    }
}

/// The text that `http::StatusCode`'s `Display` writes for `code`: the code,
/// a space, and the code's canonical reason phrase.
pub uninterp spec fn status_line(code: u16) -> Seq<char>;

/// Writes a status code as `reqwest::StatusCode` displays it (for example
/// `404 Not Found`). Trusted: built with `StatusCode::from_u16`, which
/// accepts exactly the codes 100 to 999, and written with its `Display`
/// impl, whose source writes the code in decimal, a space and the reason
/// phrase; what the reason phrase is for each code is left to the name
/// `status_line`.
#[verifier::external_body]
pub(crate) fn status_text(code: u16) -> (text: String)
    requires
        100 <= code <= 999,
    ensures
        text@ == status_line(code),
        text@.len() >= 4,
        text@.take(3) == decimal(code as int),
        text@[3] == ' ',
{
    match reqwest::StatusCode::from_u16(code) {
        Ok(status) => status.to_string(),
        Err(_) => String::new(),
    }
}

/// `prefix` followed by the status line of `error`'s response, or the
/// transport error's own message: the form every view but the credential
/// definitions one uses.
pub open spec fn described(error: HubError, prefix: Seq<char>) -> Seq<char> {
    match error {
        HubError::Transport(message) => message@,
        HubError::Response { status, .. } => prefix + status_line(status),
    }
}

/// `prefix` followed by the status line of `error`'s response, or the
/// transport error's own message.
pub(crate) fn describe_with_prefix(error: &HubError, prefix: &str) -> (r: String)
    requires
        error.well_formed(),
    ensures
        r@ == described(*error, prefix@),
{
    match error {
        HubError::Transport(message) => message.clone(),
        HubError::Response { status, .. } => {
            let line = status_text(*status);
            String::from_str(prefix).concat(line.as_str())
        },
    }
}

} // verus!
