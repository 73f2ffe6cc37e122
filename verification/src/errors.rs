//! Error taxonomy: what the store reports, what the API reports, and the
//! HTTP status each API failure maps to.

use vstd::prelude::*;

verus! {

/// A failure of a store operation.
#[derive(PartialEq, Eq, Structural, Clone, Copy, Debug)]
pub enum StoreError {
    /// The targeted row is absent, or a mutation's ownership check failed.
    NotFound,
    /// Any other storage failure: a uniqueness or referential-integrity
    /// violation, or an exhausted identifier draw.
    Storage,
}

/// A failure of an API request, one variant per distinct response.
#[derive(PartialEq, Eq, Structural, Clone, Copy, Debug)]
pub enum ApiError {
    /// The bearer token is missing, invalid, or expired.
    Unauthorized,
    /// The authenticated caller does not own the targeted website.
    Forbidden,
    /// The targeted entity is absent, or a mutation's ownership check failed.
    NotFound,
    /// The submitted URL is empty after trimming.
    UrlEmpty,
    /// The submitted URL does not begin with `http://` or `https://`.
    UrlScheme,
    /// An internal failure: storage, hashing, or token generation.
    Internal,
}

/// The HTTP status code of each API failure.
pub open spec fn spec_status_code(e: ApiError) -> u16 {
    match e {
        ApiError::Unauthorized => 401,
        ApiError::Forbidden => 403,
        ApiError::NotFound => 404,
        ApiError::UrlEmpty => 400,
        ApiError::UrlScheme => 400,
        ApiError::Internal => 500,
    }
}

impl ApiError {
    pub fn status_code(&self) -> (r: u16)
        ensures
            r == spec_status_code(*self),
    {
        match self {
            ApiError::Unauthorized => 401,
            ApiError::Forbidden => 403,
            ApiError::NotFound => 404,
            ApiError::UrlEmpty => 400,
            ApiError::UrlScheme => 400,
            ApiError::Internal => 500,
        }
    }
}

} // verus!
