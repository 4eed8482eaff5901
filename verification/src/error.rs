//! Error taxonomy and the response mapper.
//!
//! Validation failures and storage failures are distinct classes: a missing
//! input field maps to 422, a present-but-invalid field to 400, and a storage
//! failure to 500. The remaining variants exist for symmetry with the shared
//! error vocabulary of other endpoints and are not produced by the intake
//! pipeline itself.

use vstd::prelude::*;

verus! {

/// A failure of the intake request parser or of one of the value objects.
///
/// `InvalidName` and `InvalidEmail` carry the offending raw text.
#[derive(Debug, PartialEq)]
pub enum ValidationError {
    MissingField,
    InvalidName(String),
    InvalidEmail(String),
}

/// The shared error taxonomy of the service.
///
/// `Persistence` carries the storage collaborator's diagnostic detail; the
/// detail is meant for server-side logs and is never exposed to the caller.
#[derive(Debug, PartialEq)]
pub enum Error {
    Unauthorized,
    Forbidden,
    NotFound,
    Validation(ValidationError),
    Persistence(String),
}

impl Error {
    /// The external status code that each error class maps to.
    pub open spec fn spec_status_code(&self) -> u16 {
        match self {
            Error::Unauthorized => 401,
            Error::Forbidden => 403,
            Error::NotFound => 404,
            Error::Validation(v) => match v {
                ValidationError::MissingField => 422,
                ValidationError::InvalidName(_) => 400,
                ValidationError::InvalidEmail(_) => 400,
            },
            Error::Persistence(_) => 500,
        }
    }

    pub fn status_code(&self) -> (code: u16)
        ensures
            code == self.spec_status_code(),
    {
        match self {
            Error::Unauthorized => 401,
            Error::Forbidden => 403,
            Error::NotFound => 404,
            Error::Validation(v) => match v {
                ValidationError::MissingField => 422,
                ValidationError::InvalidName(_) => 400,
                ValidationError::InvalidEmail(_) => 400,
            },
            Error::Persistence(_) => 500,
        }
    }

    /// A short human-readable description of the error class; the transport
    /// layer uses it as the response body where one is owed.
    pub fn message(&self) -> (m: &'static str)
        ensures
            self is Unauthorized ==> m@ == "Authentication required"@,
            self is Forbidden ==> m@ == "User may not perform that action"@,
            self is NotFound ==> m@ == "Request path not found"@,
            self is Validation ==> m@ == "Invalid subscription data"@,
            self is Persistence ==> m@ == "An error occurred with the database"@,
    {
        match self {
            Error::Unauthorized => "Authentication required",
            Error::Forbidden => "User may not perform that action",
            Error::NotFound => "Request path not found",
            Error::Validation(_) => "Invalid subscription data",
            Error::Persistence(_) => "An error occurred with the database",
        }
    }
}

impl Default for Error {
    /// The fallback error for unmatched request paths.
    fn default() -> (r: Self)
        ensures
            r is NotFound,
    {
        Error::NotFound
    }
}

/// The response mapper: converts a terminal pipeline outcome into the
/// external status contract. Success maps to 200; each error class keeps
/// its own status code.
pub fn map_outcome(outcome: &Result<(), Error>) -> (status: u16)
    ensures
        outcome is Ok ==> status == 200,
        outcome matches Err(e) ==> status == e.spec_status_code(),
{
    match outcome {
        Ok(()) => 200,
        Err(e) => e.status_code(),
    }
}

} // verus!
