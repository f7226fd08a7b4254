//! HTTP status codes.

use crate::text::decimal;
use vstd::prelude::*;

verus! {

/// The status code of an HTTP answer: a number from 100 to 999.
#[derive(Debug, Clone, Copy)]
pub struct HttpStatus {
    code: u16,
}

/// What `reqwest::StatusCode` writes for the status code `code` when it is
/// displayed: the number, a space and the standard reason phrase.
pub uninterp spec fn status_line(code: u16) -> Seq<char>;

/// Displays the `reqwest::StatusCode` with the given number. The text starts
/// with the number in decimal and a space; the reason phrase that follows
/// comes from a table in the `http` crate.
#[verifier::external_body]
fn status_text(code: u16) -> (r: String)
    requires
        100 <= code <= 999,
    ensures
        r@ == status_line(code),
        (decimal(code as int) + seq![' ']).is_prefix_of(r@),
{
    match reqwest::StatusCode::from_u16(code) {
        Ok(status) => status.to_string(),
        Err(_) => String::new(),
    }
}

impl HttpStatus {
    #[verifier::type_invariant]
    spec fn in_range(self) -> bool {
        100 <= self.code <= 999
    }

    /// The number of this status.
    pub closed spec fn code(self) -> u16 {
        self.code
    }

    /// Whether a number can be a status code.
    pub open spec fn is_valid(code: u16) -> bool {
        100 <= code <= 999
    }

    /// Whether a status code reports success: the codes from 200 to 299.
    pub open spec fn success(code: u16) -> bool {
        200 <= code <= 299
    }

    /// The status with the given number, if the number is a status code.
    pub fn new(code: u16) -> (r: Option<HttpStatus>)
        ensures
            r is Some <==> Self::is_valid(code),
            r matches Some(status) ==> status.code() == code,
    {
        if 100 <= code && code <= 999 {
            Some(HttpStatus { code })
        } else {
            None
        }
    }

    /// The number of this status.
    pub fn as_u16(&self) -> (r: u16)
        ensures
            r == self.code(),
            Self::is_valid(r),
    {
        proof {
            use_type_invariant(self);
        }
        self.code
    }

    /// Whether this status reports success.
    pub fn is_success(&self) -> (r: bool)
        ensures
            r == Self::success(self.code()),
    {
        200 <= self.code && self.code <= 299
    }

    /// The status as shown to a user: its number and its reason phrase.
    pub fn to_string(&self) -> (r: String)
        ensures
            r@ == status_line(self.code()),
            (decimal(self.code() as int) + seq![' ']).is_prefix_of(r@),
    {
        proof {
            use_type_invariant(self);
        }
        status_text(self.code)
    }
}

} // verus!
