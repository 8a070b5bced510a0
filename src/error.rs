use vstd::prelude::*;

verus! {

/// Failure outcomes of the library's operations.
///
/// `BadRequest`, `Unauthorized` and `NotFound` carry a short description and map to
/// their HTTP statuses; `Opaque` is an internal fault whose detail is not disclosed.
#[derive(Debug, Clone, Copy, PartialEq, Eq)]
pub enum Error {
    BadRequest(&'static str),
    Unauthorized(&'static str),
    NotFound(&'static str),
    Opaque(&'static str),
}

pub type Result<T> = core::result::Result<T, Error>;

impl Error {
    pub open spec fn spec_status(self) -> u16 {
        match self {
            Error::BadRequest(_) => 400,
            Error::Unauthorized(_) => 401,
            Error::NotFound(_) => 404,
            Error::Opaque(_) => 500,
        }
    }

    /// The HTTP status code that reports this error.
    pub fn status(&self) -> (r: u16)
        ensures
            r == self.spec_status(),
    {
        match self {
            Error::BadRequest(_) => 400,
            Error::Unauthorized(_) => 401,
            Error::NotFound(_) => 404,
            Error::Opaque(_) => 500,
        }
    }

    /// The description carried by the error.
    pub fn message(&self) -> (r: &'static str)
        ensures
            r == match *self {
                Error::BadRequest(m) => m,
                Error::Unauthorized(m) => m,
                Error::NotFound(m) => m,
                Error::Opaque(m) => m,
            },
    {
        match self {
            Error::BadRequest(m) => m,
            Error::Unauthorized(m) => m,
            Error::NotFound(m) => m,
            Error::Opaque(m) => m,
        }
    }
}

} // verus!
