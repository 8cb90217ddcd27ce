//! The service's error taxonomy, with the HTTP status each kind maps to.

use vstd::prelude::*;
use vstd::string::*;

verus! {

/// An error a request handler can answer with.
#[derive(Debug)]
pub enum ApiError {
    BadRequest(&'static str),
    Conflict(&'static str),
    NotFound(&'static str),
    Internal(String),
}

impl ApiError {
    /// The HTTP status code this error answers with.
    pub fn status_code(&self) -> (r: u16)
        ensures
            r == match self {
                ApiError::BadRequest(_) => 400u16,
                ApiError::Conflict(_) => 409u16,
                ApiError::NotFound(_) => 404u16,
                ApiError::Internal(_) => 500u16,
            },
    {
        match self {
            ApiError::BadRequest(_) => 400,
            ApiError::Conflict(_) => 409,
            ApiError::NotFound(_) => 404,
            ApiError::Internal(_) => 500,
        }
    }

    /// The message carried by this error.
    pub fn message(&self) -> (r: String)
        ensures
            r@ == match self {
                ApiError::BadRequest(m) => m@,
                ApiError::Conflict(m) => m@,
                ApiError::NotFound(m) => m@,
                ApiError::Internal(m) => m@,
            },
    {
        match self {
            ApiError::BadRequest(m) => (*m).to_owned(),
            ApiError::Conflict(m) => (*m).to_owned(),
            ApiError::NotFound(m) => (*m).to_owned(),
            ApiError::Internal(m) => m.clone(),
        }
    }
}

} // verus!
