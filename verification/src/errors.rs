//! The errors that the service answers a request with.
use vstd::prelude::*;

verus! {

/// Why a request was refused.
#[derive(Debug, Clone, Copy, PartialEq, Eq, Structural)]
pub enum AppError {
    /// No valid credentials (401).
    Unauthorized,
    /// Credentials that do not allow the request (403).
    Forbidden,
    /// Nothing at the address (404).
    NotFound,
    /// A failure of the service itself (500).
    Internal,
}

/// The HTTP status of each error.
pub open spec fn status_of(e: AppError) -> u16 {
    match e {
        AppError::Unauthorized => 401,
        AppError::Forbidden => 403,
        AppError::NotFound => 404,
        AppError::Internal => 500,
    }
}

/// The text that each error displays as.
pub open spec fn text_of(e: AppError) -> Seq<char> {
    match e {
        AppError::Unauthorized => "Unauthorized"@,
        AppError::Forbidden => "Forbidden"@,
        AppError::NotFound => "Not Found"@,
        AppError::Internal => "Internal Server Error"@,
    }
}

impl AppError {
    /// The HTTP status code that answers the error.
    pub fn status_code(&self) -> (r: u16)
        ensures
            r == status_of(*self),
    {
        match self {
            AppError::Unauthorized => 401,
            AppError::Forbidden => 403,
            AppError::NotFound => 404,
            AppError::Internal => 500,
        }
    }

    /// The text the error displays as.
    pub fn to_string(&self) -> (r: String)
        ensures
            r@ == text_of(*self),
    {
        match self {
            AppError::Unauthorized => String::from_str("Unauthorized"),
            AppError::Forbidden => String::from_str("Forbidden"),
            AppError::NotFound => String::from_str("Not Found"),
            AppError::Internal => String::from_str("Internal Server Error"),
        }
    }
}

} // verus!
