//! Status codes of responses.

use crate::errors::{Error, ErrorKind};
use vstd::prelude::*;

verus! {

/// Whether a number is a status code: HTTP defines the codes from 100 to 599.
pub open spec fn is_status_code(code: int) -> bool {
    100 <= code < 600
}

/// The status code of a response, a number from 100 to 599.
#[derive(Clone, Copy, Debug, PartialEq, Eq, Structural)]
pub struct StatusCode {
    code: u16,
}

impl StatusCode {
    #[verifier::type_invariant]
    spec fn in_range(self) -> bool {
        is_status_code(self.code as int)
    }

    /// The code as a number.
    pub closed spec fn value(self) -> int {
        self.code as int
    }

    /// The status code with the given number, if there is one.
    pub fn from_u16(code: u16) -> (out: Result<StatusCode, Error>)
        ensures
            match out {
                Ok(status) => is_status_code(code as int) && status.value() == code,
                Err(error) => !is_status_code(code as int) && error.kind
                    == ErrorKind::InvalidStatusCode,
            },
    {
        if code < 100 || code >= 600 {
            Err(Error::new(ErrorKind::InvalidStatusCode))
        } else {
            Ok(StatusCode { code })
        }
    }

    /// The code as a number.
    pub fn as_u16(&self) -> (out: u16)
        ensures
            out == self.value(),
            is_status_code(out as int),
    {
        proof {
            use_type_invariant(self);
        }
        self.code
    }

    /// 200, the request was served.
    pub fn ok() -> (out: StatusCode)
        ensures
            out.value() == 200,
    {
        StatusCode { code: 200 }
    }

    /// 404, nothing is known under the requested path.
    pub fn not_found() -> (out: StatusCode)
        ensures
            out.value() == 404,
    {
        StatusCode { code: 404 }
    }

    /// 500, the request could not be served because of a failure on the
    /// server's side.
    pub fn internal_server_error() -> (out: StatusCode)
        ensures
            out.value() == 500,
    {
        StatusCode { code: 500 }
    }
}

} // verus!
