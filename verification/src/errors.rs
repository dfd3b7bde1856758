//! The error taxonomy shared by every operation of the marketplace, together
//! with the HTTP status code that each class of failure is reported under.

use vstd::prelude::*;

verus! {

/// Why a marketplace operation failed.
#[derive(Clone, Copy, Debug, PartialEq, Eq, Structural)]
pub enum AppError {
    /// A malformed input: a bad owner identifier, a rejected upload, a
    /// payment figure that cannot be represented.
    InvalidInput,
    /// The caller could not be authenticated (bad credentials or session).
    Unauthorized,
    /// No row matches the requested identifier, or the row is hidden by the
    /// availability exclusion.
    NotFound,
    /// The caller is authenticated but does not own the touched record.
    Forbidden,
    /// A uniqueness rule was violated (an already registered email).
    Conflict,
    /// Any other storage-level failure.
    Internal,
}

impl AppError {
    /// The HTTP status code this error class is reported under.
    ///
    /// Session and credential failures are deliberately reported as 400, not
    /// 401, and a duplicate registration as 400, not 409.
    pub fn status_code(&self) -> (code: u16)
        ensures
            code == (match *self {
                AppError::InvalidInput => 400u16,
                AppError::Unauthorized => 400u16,
                AppError::NotFound => 404u16,
                AppError::Forbidden => 403u16,
                AppError::Conflict => 400u16,
                AppError::Internal => 500u16,
            }),
    {
        match *self {
            AppError::InvalidInput => 400,
            AppError::Unauthorized => 400,
            AppError::NotFound => 404,
            AppError::Forbidden => 403,
            AppError::Conflict => 400,
            AppError::Internal => 500,
        }
    }
}

} // verus!
