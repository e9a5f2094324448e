//! The ways in which a request can fail.

use vstd::prelude::*;

verus! {

/// Why a request was not served.
#[derive(Debug, Clone, Copy, PartialEq, Eq, Structural)]
pub enum ApiError {
    /// An identifier is not a well-formed object id.
    InvalidReference,
    /// The record that the request refers to does not exist.
    NotFound,
    /// The bearer token is missing or was not accepted.
    Unauthorized,
    /// A unique field already holds the given value.
    Conflict,
    /// The document store did not carry out an operation.
    StorageError,
    /// A parameter holds a value outside its enumeration.
    ValidationError,
}

impl ApiError {
    /// The HTTP status code under which the error is reported.
    pub open spec fn status_code(self) -> u16 {
        match self {
            ApiError::InvalidReference => 400,
            ApiError::NotFound => 404,
            ApiError::Unauthorized => 401,
            ApiError::Conflict => 400,
            ApiError::StorageError => 500,
            ApiError::ValidationError => 400,
        }
    }

    /// The HTTP status code under which the error is reported.
    pub fn status(&self) -> (code: u16)
        ensures
            code == self.status_code(),
    {
        match self {
            ApiError::InvalidReference => 400,
            ApiError::NotFound => 404,
            ApiError::Unauthorized => 401,
            ApiError::Conflict => 400,
            ApiError::StorageError => 500,
            ApiError::ValidationError => 400,
        }
    }
}

} // verus!
