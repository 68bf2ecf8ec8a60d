//! The three kinds of failure that a request can end in.
use vstd::prelude::*;

verus! {

/// How a request failed. Internal detail is discarded: callers see the kind only.
#[derive(Debug, Clone, Copy, PartialEq, Eq, Structural)]
pub enum ApiError {
    /// No user under that name, or the lookup itself failed.
    NotFound,
    /// The password did not match the stored hash.
    Unauthorized,
    /// Hashing, token signing or persistence failed.
    ServerError,
}

/// A failed read or write of the user store, with its detail dropped.
#[derive(Debug, Clone, Copy, PartialEq, Eq, Structural)]
pub struct StoreError;

pub open spec fn status_of(e: ApiError) -> u16 {
    match e {
        ApiError::NotFound => 404,
        ApiError::Unauthorized => 401,
        ApiError::ServerError => 500,
    }
}

impl ApiError {
    /// The HTTP status code that reports this failure.
    pub fn status_code(&self) -> (r: u16)
        ensures
            r == status_of(*self),
    {
        match self {
            ApiError::NotFound => 404,
            ApiError::Unauthorized => 401,
            ApiError::ServerError => 500,
        }
    }
}

} // verus!
