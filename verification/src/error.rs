//! Application-wide error taxonomy.
//!
//! Storage-layer failures are represented by typed variants carried as
//! plain strings, so that callers never classify errors by inspecting
//! driver message text.

use vstd::prelude::*;

verus! {

/// Application-wide error type.
#[derive(Debug)]
pub enum AppError {
    /// Database errors (driver message text, for logging only)
    Database(String),
    /// Authentication failed
    Unauthorized,
    /// Access forbidden
    Forbidden,
    /// Resource not found
    NotFound,
    /// Bad request
    BadRequest(String),
    /// Internal server error
    Internal(String),
    /// Password hashing error
    Bcrypt(String),
    /// Validation error with field details
    Validation(Vec<(String, String)>),
    /// Duplicate entry error
    DuplicateEntry(String),
    /// Session expired
    SessionExpired,
}

/// The result type used throughout the application.
pub type AppResult<T> = Result<T, AppError>;

} // verus!
