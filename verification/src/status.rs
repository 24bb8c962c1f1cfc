//! HTTP status codes as plain numbers.

use vstd::prelude::*;

verus! {

/// An HTTP status code: a number from 100 to 999.
#[derive(Clone, Copy, Debug, PartialEq, Eq, Hash, Structural)]
pub struct StatusCode {
    code: u16,
}

impl View for StatusCode {
    type V = u16;

    closed spec fn view(&self) -> u16 {
        self.code
    }
}

impl StatusCode {
    /// The code whose number is `code`.
    pub closed spec fn of(code: u16) -> StatusCode {
        StatusCode { code }
    }

    /// `of` and the view undo each other.
    pub broadcast proof fn of_view(code: u16)
        ensures
            (#[trigger] StatusCode::of(code))@ == code,
    {
    }

    #[verifier::type_invariant]
    spec fn in_range(self) -> bool {
        100 <= self.code <= 999
    }

    /// The code for `code`, where it is a number of three digits.
    pub fn from_u16(code: u16) -> (r: Option<StatusCode>)
        ensures
            r is Some <==> 100 <= code <= 999,
            r matches Some(s) ==> s == StatusCode::of(code) && s@ == code,
    {
        if 100 <= code && code <= 999 {
            Some(StatusCode { code })
        } else {
            None
        }
    }

    /// 200, the status of a success that nothing overrides.
    pub fn ok() -> (r: StatusCode)
        ensures
            r == StatusCode::of(200),
            r@ == 200,
    {
        StatusCode { code: 200 }
    }

    /// 500, the status of an error that declares none.
    pub fn internal_server_error() -> (r: StatusCode)
        ensures
            r == StatusCode::of(500),
            r@ == 500,
    {
        StatusCode { code: 500 }
    }

    /// Two codes with the same number are the same code.
    pub proof fn same_number(a: StatusCode, b: StatusCode)
        requires
            a@ == b@,
        ensures
            a == b,
    {
    }

    /// The number of this code.
    pub fn as_u16(&self) -> (r: u16)
        ensures
            r == self@,
            100 <= r <= 999,
    {
        proof {
            use_type_invariant(self);
        }
        self.code
    }
}

} // verus!
