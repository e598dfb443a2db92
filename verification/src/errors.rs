//! The error taxonomy of the service, and its mapping to HTTP status codes.
//!
//! Storage uniqueness violations surface as `Conflict`; authentication
//! failures are all folded into `Unauthorized` so a caller cannot tell which
//! factor failed; internal failures carry no detail outward.

use vstd::prelude::*;
use vstd::string::StringExecFns;

verus! {

/// Every failure a service operation can report.
#[derive(Debug)]
pub enum AppError {
    /// Malformed input, with one message per failed field.
    Validation(Vec<String>),
    /// A storage failure that is not a uniqueness violation.
    Database,
    /// Unknown short code.
    NotFound,
    /// Duplicate unique key, or exhausted short-code allocation attempts.
    Conflict,
    /// Missing, invalid or expired token, or bad login credentials.
    Unauthorized,
    /// Password hashing or digest parsing failed.
    PasswordHashing,
    /// Token signing failed.
    Jwt,
}

impl AppError {
    /// The HTTP status code each error maps to at the boundary.
    pub fn status_code(&self) -> (code: u16)
        ensures
            code == match *self {
                AppError::Validation(_) => 400u16,
                AppError::Database => 500u16,
                AppError::NotFound => 404u16,
                AppError::Conflict => 409u16,
                AppError::Unauthorized => 401u16,
                AppError::PasswordHashing => 500u16,
                AppError::Jwt => 500u16,
            },
    {
        match self {
            AppError::Validation(_) => 400,
            AppError::Database => 500,
            AppError::NotFound => 404,
            AppError::Conflict => 409,
            AppError::Unauthorized => 401,
            AppError::PasswordHashing => 500,
            AppError::Jwt => 500,
        }
    }

    /// The generic message returned to the caller. Internal errors share one
    /// deliberately uninformative message.
    pub fn message(&self) -> (msg: String)
        ensures
            msg@ == match *self {
                AppError::Validation(_) => "Input validation failed"@,
                AppError::Database => "An internal database error occurred"@,
                AppError::NotFound => "Resource not found"@,
                AppError::Conflict => "Username or email already exists"@,
                AppError::Unauthorized => "Invalid credentials"@,
                AppError::PasswordHashing => "An internal error occurred"@,
                AppError::Jwt => "An internal error occurred"@,
            },
    {
        match self {
            AppError::Validation(_) => String::from_str("Input validation failed"),
            AppError::Database => String::from_str("An internal database error occurred"),
            AppError::NotFound => String::from_str("Resource not found"),
            AppError::Conflict => String::from_str("Username or email already exists"),
            AppError::Unauthorized => String::from_str("Invalid credentials"),
            AppError::PasswordHashing => String::from_str("An internal error occurred"),
            AppError::Jwt => String::from_str("An internal error occurred"),
        }
    }
}

} // verus!
