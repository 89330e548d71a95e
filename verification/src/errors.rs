//! The errors that the HTTP API answers with, and how they become a status
//! code and an error message.

use vstd::prelude::*;
use crate::text::concat_str;

verus! {

/// Errors of the HTTP API.
#[derive(Debug)]
pub enum AppError {
    InvalidInput(String),
    UserAlreadyExists(String),
    UserNotFound,
    InvalidCredentials,
    PasswordHashingError(String),
    TokenCreationError(String),
    DatabaseError(String),
    InternalServerError(String),
    ServerError(String),
    NotFound(String),
    Unauthorized(String),
    Conflict(String),
}

/// The HTTP status code and error message that an error is answered with.
pub open spec fn spec_error_response(e: AppError) -> (u16, Seq<char>) {
    match e {
        AppError::InvalidInput(m) => (400, m@),
        AppError::UserAlreadyExists(m) => (409, m@),
        AppError::UserNotFound => (401, "无效凭据"@),
        AppError::InvalidCredentials => (401, "无效凭据"@),
        AppError::PasswordHashingError(m) => (500, "Password hashing error: "@ + m@),
        AppError::TokenCreationError(m) => (500, "Token creation error: "@ + m@),
        AppError::DatabaseError(m) => (500, "Database error: "@ + m@),
        AppError::InternalServerError(m) => (500, m@),
        AppError::ServerError(m) => (500, m@),
        AppError::NotFound(m) => (404, m@),
        AppError::Unauthorized(m) => (401, m@),
        AppError::Conflict(m) => (409, m@),
    }
}

impl AppError {
    /// The HTTP status code and error message this error is answered with
    /// (the body is `{"error": <message>}`).
    pub fn status_and_message(&self) -> (r: (u16, String))
        ensures
            (r.0, r.1@) == spec_error_response(*self),
    {
        match self {
            AppError::InvalidInput(m) => (400, m.clone()),
            AppError::UserAlreadyExists(m) => (409, m.clone()),
            AppError::UserNotFound => (401, "无效凭据".to_string()),
            AppError::InvalidCredentials => (401, "无效凭据".to_string()),
            AppError::PasswordHashingError(m) => (500, concat_str("Password hashing error: ", m.as_str())),
            AppError::TokenCreationError(m) => (500, concat_str("Token creation error: ", m.as_str())),
            AppError::DatabaseError(m) => (500, concat_str("Database error: ", m.as_str())),
            AppError::InternalServerError(m) => (500, m.clone()),
            AppError::ServerError(m) => (500, m.clone()),
            AppError::NotFound(m) => (404, m.clone()),
            AppError::Unauthorized(m) => (401, m.clone()),
            AppError::Conflict(m) => (409, m.clone()),
        }
    }
}

} // verus!
