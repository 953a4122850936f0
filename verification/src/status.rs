//! HTTP status codes as the exchange rules read them.

use crate::text::digits;
use vstd::pervasive::unreached;
use vstd::prelude::*;

verus! {

/// The reason phrase that `reqwest::StatusCode` holds for a code, such as
/// `Not Found` for 404, or its placeholder where it holds none.
pub uninterp spec fn reason_phrase(code: u16) -> Seq<char>;

/// A status as text: the code in decimal, a space, and the reason phrase.
pub open spec fn status_line(code: u16) -> Seq<char> {
    digits(code as nat) + " "@ + reason_phrase(code)
}

/// Bounds of the codes that an HTTP response can carry.
pub open spec fn valid_code(code: u16) -> bool {
    100 <= code <= 999
}

/// A status code of an HTTP response, always within `100..=999`.
#[derive(Clone, Copy, Debug)]
pub struct HttpStatus {
    code: u16,
}

impl View for HttpStatus {
    type V = u16;

    closed spec fn view(&self) -> u16 {
        self.code
    }
}

/// Calls `reqwest::StatusCode::from_u16` and, where that accepts the code,
/// `to_string` on the status. `from_u16` accepts exactly `100..=999`;
/// `Display` prints the code, a space, and the canonical reason phrase of
/// the code, or a placeholder where the code has none.
#[verifier::external_body]
fn display_code(code: u16) -> (text: Option<String>)
    ensures
        text.is_some() == valid_code(code),
        text matches Some(t) ==> t@ == digits(code as nat) + " "@ + reason_phrase(code),
{
    match reqwest::StatusCode::from_u16(code) {
        Ok(status) => Some(status.to_string()),
        Err(_) => None,
    }
}

impl HttpStatus {
    #[verifier::type_invariant]
    spec fn in_range(self) -> bool {
        valid_code(self.code)
    }

    /// Accepts a code exactly when it lies within `100..=999`.
    pub fn new(code: u16) -> (status: Option<HttpStatus>)
        ensures
            status.is_some() == valid_code(code),
            status matches Some(s) ==> s@ == code,
    {
        if 100 <= code && code <= 999 {
            Some(HttpStatus { code })
        } else {
            None
        }
    }

    /// The numeric code.
    pub fn code(&self) -> (code: u16)
        ensures
            code == self@,
            valid_code(code),
    {
        proof {
            use_type_invariant(self);
        }
        self.code
    }

    /// Whether the code lies within `200..=299`.
    pub fn is_success(&self) -> (yes: bool)
        ensures
            yes == is_success_code(self@),
    {
        200 <= self.code && self.code < 300
    }

    /// Whether the code is 409.
    pub fn is_conflict(&self) -> (yes: bool)
        ensures
            yes == (self@ == CONFLICT),
    {
        self.code == CONFLICT
    }

    /// The status as text, for messages: code and reason phrase.
    pub fn describe(&self) -> (text: String)
        ensures
            text@ == status_line(self@),
    {
        proof {
            use_type_invariant(self);
        }
        match display_code(self.code) {
            Some(text) => text,
            None => unreached(),
        }
    }
}

/// The code of a response that reports a conflict with existing state.
pub const CONFLICT: u16 = 409;

/// Codes that report success.
pub open spec fn is_success_code(code: u16) -> bool {
    200 <= code < 300
}

} // verus!
