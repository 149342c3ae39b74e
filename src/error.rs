use vstd::prelude::*;

verus! {

/// How a read from the relational store or the session cache failed.
#[derive(Debug, Clone, Copy, PartialEq, Eq, Structural)]
pub enum StoreError {
    /// No row or entry under the key.
    NotFound,
    /// The store could not answer.
    Unavailable,
}

/// The failures that reach a client.
#[derive(Debug, Clone, Copy, PartialEq, Eq, Structural)]
pub enum ApiError {
    /// Bad credentials, a missing, malformed or expired token, or a missing
    /// role. Never says which.
    Unauthorized,
    /// The requested resource does not exist.
    NotFound,
    /// A store failed; the detail stays on the server.
    Internal,
}

impl ApiError {
    /// The HTTP status code of this failure.
    pub fn status(&self) -> (r: u16)
        ensures
            *self == ApiError::Unauthorized ==> r == 401,
            *self == ApiError::NotFound ==> r == 404,
            *self == ApiError::Internal ==> r == 500,
    {
        match self {
            ApiError::Unauthorized => 401,
            ApiError::NotFound => 404,
            ApiError::Internal => 500,
        }
    }
}

/// A failed lookup of a single resource: a missing row is `NotFound`, any
/// other failure is `Internal`.
pub fn lookup_failure(e: StoreError) -> (r: ApiError)
    ensures
        e == StoreError::NotFound ==> r == ApiError::NotFound,
        e == StoreError::Unavailable ==> r == ApiError::Internal,
{
    match e {
        StoreError::NotFound => ApiError::NotFound,
        StoreError::Unavailable => ApiError::Internal,
    }
}

} // verus!
