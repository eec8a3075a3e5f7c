use vstd::prelude::*;

use crate::ua::StatusCode;

verus! {

/// Error type used in this crate.
///
/// This error may be returned from many different OPC UA calls. It represents any status code
/// that does not qualify as good.
#[derive(Debug, Clone, Copy)]
pub enum Error {
    /// Error from server.
    Server(StatusCode),
    /// Internal error.
    Internal(&'static str),
}

/// Result type used in this crate.
pub type Result<T> = core::result::Result<T, Error>;

impl Error {
    /// The status code associated with an error.
    pub open spec fn spec_status_code(self) -> StatusCode {
        match self {
            Error::Server(status_code) => status_code,
            Error::Internal(_) => StatusCode::bad(),
        }
    }

    /// Creates error from a status code that is not good.
    pub fn new(status_code: StatusCode) -> (r: Self)
        requires
            !status_code.spec_is_good(),
        ensures
            r == Error::Server(status_code),
    {
        Error::Server(status_code)
    }

    /// Returns `Ok(())` for a good status code, else the error for it.
    pub fn verify_good(status_code: &StatusCode) -> (r: Result<()>)
        ensures
            r is Ok <==> status_code.spec_is_good(),
            r matches Err(e) ==> e == Error::Server(*status_code),
    {
        if status_code.is_good() {
            Ok(())
        } else {
            Err(Error::new(*status_code))
        }
    }

    /// Gets associated OPC UA status code.
    ///
    /// This returns the error's own status code except for internal errors where the generic status
    /// code [`StatusCode::bad()`] is returned instead.
    pub fn status_code(&self) -> (r: StatusCode)
        ensures
            r == self.spec_status_code(),
    {
        match self {
            Error::Server(status_code) => *status_code,
            Error::Internal(_) => StatusCode::bad(),
        }
    }

    /// Creates internal error.
    pub fn internal(message: &'static str) -> (r: Self)
        ensures
            r == Error::Internal(message),
    {
        Error::Internal(message)
    }
}

/// An error never carries a good status code: the status code of an error made by
/// [`Error::verify_good`] is the bad or uncertain one it was made from, and that of an internal
/// error is bad.
pub proof fn lemma_error_status_not_good(e: Error)
    requires
        e matches Error::Server(s) ==> !s.spec_is_good(),
    ensures
        !e.spec_status_code().spec_is_good(),
{
    let b = StatusCode::bad().0;
    assert((b >> 30u32) == 2) by (bit_vector)
        requires b == 0x8000_0000u32;
}

} // verus!
