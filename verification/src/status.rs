//! Status codes of upstream answers.

use vstd::prelude::*;

verus! {

/// The line that displays a status code: the number and its reason phrase.
pub uninterp spec fn status_line(code: u16) -> Seq<char>;

/// Displays a status code as `hyper::StatusCode` does.
///
/// Trusted: `hyper::StatusCode::try_from` accepts every code from 100 to
/// 599, and the text that `Display` writes for the result depends on the
/// code alone.
#[verifier::external_body]
fn display_status(code: u16) -> (r: String)
    requires
        100 <= code <= 599,
    ensures
        r@ == status_line(code),
{
    match hyper::StatusCode::try_from(code) {
        Ok(status) => status.to_string(),
        Err(_) => String::new(),
    }
}

/// The status code of an answer, between 100 and 599.
#[derive(Clone, Copy, Debug, PartialEq, Eq)]
pub struct StatusCode {
    code: u16,
}

impl View for StatusCode {
    type V = u16;

    closed spec fn view(&self) -> u16 {
        self.code
    }
}

impl StatusCode {
    #[verifier::type_invariant]
    spec fn in_range(self) -> bool {
        100 <= self.code <= 599
    }

    /// Accepts the codes from 100 to 599.
    pub fn new(code: u16) -> (r: Option<StatusCode>)
        ensures
            r is Some <==> 100 <= code <= 599,
            r is Some ==> r.unwrap()@ == code,
    {
        if 100 <= code && code <= 599 {
            Some(StatusCode { code })
        } else {
            None
        }
    }

    /// The code as a number.
    pub fn as_u16(&self) -> (r: u16)
        ensures
            r == self@,
            100 <= r <= 599,
    {
        proof {
            use_type_invariant(self);
        }
        self.code
    }

    /// Whether the code reports success, that is, lies between 200 and 299.
    pub fn is_success(&self) -> (r: bool)
        ensures
            r == (200 <= self@ <= 299),
    {
        200 <= self.code && self.code <= 299
    }

    /// The status line of the code.
    pub fn to_string(&self) -> (r: String)
        ensures
            r@ == status_line(self@),
    {
        proof {
            use_type_invariant(self);
        }
        display_status(self.code)
    }
}

} // verus!
