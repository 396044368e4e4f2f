//! Application-level status codes that a descriptor carries, and how they are
//! read from the text that a taxonomy declares.
use vstd::prelude::*;

verus! {

/// A type that application codes are parsed into (an HTTP status, a gRPC
/// code, a code of the application's own).
///
/// `accepts` says which texts name a value, and `parses_to` which value a
/// text names; `parse_app_code` is held to both.
pub trait AppCode: Sized {
    /// The failure of the type's own parser.
    type ParseError;

    spec fn accepts(text: Seq<char>) -> bool;

    spec fn parses_to(text: Seq<char>, value: Self) -> bool;

    fn parse_app_code(text: &str) -> (r: Result<Self, Self::ParseError>)
        ensures
            r is Ok <==> Self::accepts(text@),
            r is Ok ==> Self::parses_to(text@, r->Ok_0),
    ;
}

pub open spec fn is_digit(c: char) -> bool {
    '0' <= c && c <= '9'
}

pub open spec fn digit_value(c: char) -> int {
    c as int - '0' as int
}

/// Three ASCII digits, the first of them not `0`.
pub open spec fn is_status_text(s: Seq<char>) -> bool {
    &&& s.len() == 3
    &&& '1' <= s[0] && s[0] <= '9'
    &&& is_digit(s[1])
    &&& is_digit(s[2])
}

/// The decimal value of three digits.
pub open spec fn status_value(s: Seq<char>) -> int {
    100 * digit_value(s[0]) + 10 * digit_value(s[1]) + digit_value(s[2])
}

#[verifier::external_type_specification]
#[verifier::external_body]
pub struct ExInvalidStatusCode(http::status::InvalidStatusCode);

/// Relies on `<http::StatusCode as FromStr>::from_str` (which is
/// `StatusCode::from_bytes`): it accepts exactly three ASCII digits whose first
/// is not `0`, and the status it returns has their decimal value as its
/// `as_u16`.
#[verifier::external_body]
fn parse_http_status(s: &str) -> (r: Result<u16, http::status::InvalidStatusCode>)
    ensures
        r is Ok <==> is_status_text(s@),
        r is Ok ==> r->Ok_0 as int == status_value(s@),
{
    s.parse::<http::StatusCode>().map(|c| c.as_u16())
}

/// An HTTP status code, from 100 to 999.
#[derive(Clone, Copy, Debug, PartialEq, Eq)]
pub struct HttpStatus {
    code: u16,
}

impl View for HttpStatus {
    type V = u16;

    closed spec fn view(&self) -> u16 {
        self.code
    }
}

impl HttpStatus {
    #[verifier::type_invariant]
    spec fn in_range(self) -> bool {
        100 <= self.code && self.code <= 999
    }

    /// The status with the given number, or `None` outside 100 to 999.
    pub fn from_u16(code: u16) -> (r: Option<HttpStatus>)
        ensures
            r is Some <==> 100 <= code && code <= 999,
            r is Some ==> r->Some_0@ == code,
    {
        if 100 <= code && code <= 999 {
            Some(HttpStatus { code })
        } else {
            None
        }
    }

    pub fn as_u16(&self) -> (r: u16)
        ensures
            r == self@,
            100 <= r && r <= 999,
    {
        proof {
            use_type_invariant(self);
        }
        self.code
    }
}

impl AppCode for HttpStatus {
    type ParseError = http::status::InvalidStatusCode;

    open spec fn accepts(text: Seq<char>) -> bool {
        is_status_text(text)
    }

    open spec fn parses_to(text: Seq<char>, value: HttpStatus) -> bool {
        value@ as int == status_value(text)
    }

    fn parse_app_code(text: &str) -> (r: Result<HttpStatus, http::status::InvalidStatusCode>) {
        match parse_http_status(text) {
            Ok(code) => {
                assert(100 <= code && code <= 999);
                Ok(HttpStatus { code })
            },
            Err(e) => Err(e),
        }
    }
}

} // verus!
