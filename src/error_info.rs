//! The descriptor that an error value is turned into.
use vstd::prelude::*;

use crate::app_code::AppCode;

verus! {

/// What an error occurrence looks like to the layer that answers a client.
///
/// `code` is the full internal code (`prefix ++ short code`); `client_msg` may
/// be empty, in which case the consuming layer shows the error's own text;
/// `cause` is the error itself, kept for internal logs and never sent out.
#[derive(Debug)]
pub struct ErrorInfo<T, C> {
    pub app_code: T,
    pub code: String,
    pub client_msg: String,
    pub cause: C,
}

/// `r` is the descriptor declared by `app_code`, `code` and `client_msg` for
/// `cause`, or the parse failure of `T` exactly when `T` rejects `app_code`.
pub open spec fn describes<T: AppCode, C>(
    r: Result<ErrorInfo<T, C>, T::ParseError>,
    app_code: Seq<char>,
    code: Seq<char>,
    client_msg: Seq<char>,
    cause: C,
) -> bool {
    &&& r is Ok <==> T::accepts(app_code)
    &&& r is Ok ==> {
        &&& T::parses_to(app_code, r->Ok_0.app_code)
        &&& r->Ok_0.code@ == code
        &&& r->Ok_0.client_msg@ == client_msg
        &&& r->Ok_0.cause == cause
    }
}

impl<T: AppCode, C> ErrorInfo<T, C> {
    /// Parses `app_code` into `T` and builds the descriptor; fails with `T`'s
    /// own parse error. Code and message are taken as they are.
    pub fn try_new(app_code: &str, code: &str, client_msg: &str, cause: C) -> (r: Result<
        ErrorInfo<T, C>,
        T::ParseError,
    >)
        ensures
            describes(r, app_code@, code@, client_msg@, cause),
    {
        match T::parse_app_code(app_code) {
            Ok(value) => Ok(
                ErrorInfo {
                    app_code: value,
                    code: String::from_str(code),
                    client_msg: String::from_str(client_msg),
                    cause,
                },
            ),
            Err(e) => Err(e),
        }
    }
}

/// An error type that can describe itself: each of its values maps to one
/// descriptor, whose cause is the value itself, or to the parse failure of its
/// application-code type.
pub trait ToErrorInfo: Sized {
    type T: AppCode;

    fn to_error_info(&self) -> Result<ErrorInfo<Self::T, &Self>, <Self::T as AppCode>::ParseError>;
}

} // verus!
