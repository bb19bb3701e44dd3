//! HTTP status codes as the bridge reads them.

use crate::text::{decimal_text, has_prefix};
use vstd::prelude::*;

verus! {

/// The text that `reqwest::StatusCode` prints for a status code: the number
/// followed by the reason phrase registered for it.
pub uninterp spec fn status_line(code: u16) -> Seq<char>;

/// Converts `code` with `reqwest::StatusCode::from_u16` and prints the status
/// through its `Display` impl.
///
/// Trusted: the conversion succeeds exactly for the codes from 100 to 999, and
/// the printed text, named `status_line`, starts with the decimal number of the
/// code and a space. The reason phrase that follows is not described.
#[verifier::external_body]
fn display_status(code: u16) -> (line: Option<String>)
    ensures
        line is Some <==> 100 <= code <= 999,
        line matches Some(l) ==> l@ == status_line(code) && has_prefix(
            l@,
            decimal_text(code as nat).push(' '),
        ),
{
    match reqwest::StatusCode::from_u16(code) {
        Ok(status) => Some(status.to_string()),
        Err(_) => None,
    }
}

/// A status code of an HTTP response, between 100 and 999.
#[derive(Clone, Copy, Debug, PartialEq, Eq)]
pub struct Status {
    code: u16,
}

impl View for Status {
    type V = u16;

    closed spec fn view(&self) -> u16 {
        self.code
    }
}

impl Status {
    #[verifier::type_invariant]
    spec fn in_range(self) -> bool {
        100 <= self.code <= 999
    }

    /// Whether `code` is the number of a status.
    pub open spec fn valid(code: u16) -> bool {
        100 <= code <= 999
    }

    /// Whether a response with this code counts as a success.
    pub open spec fn success(code: u16) -> bool {
        200 <= code < 300
    }

    /// The status with the given number, if there is one.
    pub fn from_u16(code: u16) -> (status: Option<Status>)
        ensures
            status is Some <==> Status::valid(code),
            status matches Some(s) ==> s@ == code,
    {
        if 100 <= code && code <= 999 {
            Some(Status { code })
        } else {
            None
        }
    }

    /// The number of this status.
    pub fn as_u16(&self) -> (code: u16)
        ensures
            code == self@,
            Status::valid(code),
    {
        proof {
            use_type_invariant(self);
        }
        self.code
    }

    /// Whether the status is one of the 2xx codes.
    pub fn is_success(&self) -> (ok: bool)
        ensures
            ok == Status::success(self@),
    {
        200 <= self.code && self.code < 300
    }

    /// The status as it is shown to a reader: number and reason phrase.
    pub fn line(&self) -> (line: String)
        ensures
            line@ == status_line(self@),
            has_prefix(line@, decimal_text(self@ as nat).push(' ')),
    {
        proof {
            use_type_invariant(self);
        }
        match display_status(self.code) {
            Some(line) => line,
            // The conversion accepts every code from 100 to 999, and a status
            // holds no other.
            None => String::new(),
        }
    }
}

} // verus!
