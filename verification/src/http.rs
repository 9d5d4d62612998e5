//! How an HTTP exchange turned out, as far as the decisions need to know.
use vstd::prelude::*;
use crate::text::decimal;

verus! {

/// Whether `code` is a success status (the 2xx class), as
/// `http::StatusCode::is_success` decides it.
pub open spec fn is_success_code(code: u16) -> bool {
    200 <= code && code < 300
}

/// Whether a response with status `code` counts as successful (2xx).
pub fn is_success_status(code: u16) -> (b: bool)
    ensures
        b == is_success_code(code),
{
    200 <= code && code < 300
}

/// The reason phrase that `http::StatusCode`'s `Display` writes after the
/// code: the status's canonical reason, or `<unknown status code>` when it
/// has none.
pub uninterp spec fn status_reason(code: u16) -> Seq<char>;

/// How a status is shown: the code in decimal, a space, the reason phrase
/// (`404 Not Found`).
pub open spec fn status_line_text(code: u16) -> Seq<char> {
    decimal(code as nat) + seq![' '] + status_reason(code)
}

/// Whether `code` can be an HTTP status (`100..=999`).
pub open spec fn is_status_code(code: u16) -> bool {
    100 <= code && code <= 999
}

/// `http::StatusCode::from_u16` followed by its `Display`: `None` for a code
/// outside `100..=999`, otherwise the code in decimal, a space and the
/// reason phrase.
#[verifier::external_body]
fn status_display(code: u16) -> (r: Option<String>)
    ensures
        match r {
            Some(t) => is_status_code(code) && t@ == decimal(code as nat) + seq![' '] + status_reason(
                code,
            ),
            None => !is_status_code(code),
        },
{
    match reqwest::StatusCode::from_u16(code) {
        Ok(status) => Some(status.to_string()),
        Err(_) => None,
    }
}

/// The status of an HTTP response: a code in `100..=999`.
#[derive(Debug)]
pub struct HttpStatus {
    code: u16,
}

impl View for HttpStatus {
    type V = u16;

    closed spec fn view(&self) -> u16 {
        self.code
    }
}

impl HttpStatus {
    #[verifier::type_invariant]
    spec fn valid(self) -> bool {
        is_status_code(self.code)
    }

    /// The status with code `code`, if it can be one.
    pub fn new(code: u16) -> (r: Option<HttpStatus>)
        ensures
            match r {
                Some(s) => is_status_code(code) && s@ == code,
                None => !is_status_code(code),
            },
    {
        if 100 <= code && code <= 999 {
            Some(HttpStatus { code })
        } else {
            None
        }
    }

    /// The status's code.
    pub fn code(&self) -> (c: u16)
        ensures
            c == self@,
            is_status_code(c),
    {
        proof {
            use_type_invariant(self);
        }
        self.code
    }

    /// How the status is shown, such as `404 Not Found`.
    pub fn line(&self) -> (t: String)
        ensures
            t@ == status_line_text(self@),
    {
        proof {
            use_type_invariant(self);
        }
        match status_display(self.code) {
            Some(t) => t,
            None => {
                assert(false);
                String::new()
            },
        }
    }
}

/// What fetching a text resource gave.
#[derive(Debug)]
pub enum FetchOutcome {
    /// The request could not be sent or got no response; the error's text.
    SendFailed(String),
    /// The server answered with this status, which is not a success.
    Status(HttpStatus),
    /// The body of a successful response could not be read as text.
    BodyFailed(String),
    /// The body of a successful response.
    Body(String),
}

} // verus!
