//! Errors of the character and login surface.

use crate::errors::RejectionCause;
use vstd::prelude::*;

verus! {

/// What can go wrong while serving a request. The variants that stem from
/// a collaborator carry its own description of the failure, which is kept
/// for the log and never shown to the caller.
#[derive(Debug)]
pub enum ApiError {
    DatabaseError(String),
    RedisError(String),
    JwtError(String),
    ValidationError { message: String },
    AuthenticationError,
    AuthorizationError,
    NotFound,
    InternalServerError,
}

/// The body of a rejected request.
#[derive(Debug)]
pub struct ErrorMessage {
    pub code: u16,
    pub message: String,
}

impl ApiError {
    /// HTTP status that goes with the error.
    pub open spec fn status(&self) -> u16 {
        match self {
            ApiError::DatabaseError(_) => 500,
            ApiError::RedisError(_) => 500,
            ApiError::JwtError(_) => 500,
            ApiError::ValidationError { .. } => 400,
            ApiError::AuthenticationError => 401,
            ApiError::AuthorizationError => 403,
            ApiError::NotFound => 404,
            ApiError::InternalServerError => 500,
        }
    }

    /// The message shown to the caller. Failures of a collaborator are
    /// reduced to a fixed phrase; only a validation message, which the
    /// caller's own input produced, is passed on.
    pub open spec fn public_text(&self) -> Seq<char> {
        match self {
            ApiError::DatabaseError(_) => "Database error"@,
            ApiError::ValidationError { message } => message@,
            ApiError::AuthenticationError => "Authentication failed"@,
            ApiError::AuthorizationError => "Authorization failed"@,
            ApiError::NotFound => "Not found"@,
            _ => "Internal server error"@,
        }
    }

    /// The full description for the log, collaborator detail included.
    pub open spec fn log_text(&self) -> Seq<char> {
        match self {
            ApiError::DatabaseError(d) => "Database error: "@ + d@,
            ApiError::RedisError(d) => "Redis error: "@ + d@,
            ApiError::JwtError(d) => "JWT error: "@ + d@,
            ApiError::ValidationError { message } => "Validation error: "@ + message@,
            ApiError::AuthenticationError => "Authentication failed"@,
            ApiError::AuthorizationError => "Authorization failed"@,
            ApiError::NotFound => "Not found"@,
            ApiError::InternalServerError => "Internal server error"@,
        }
    }

    /// HTTP status that goes with the error.
    pub fn status_code(&self) -> (r: u16)
        ensures
            r == self.status(),
    {
        match self {
            ApiError::DatabaseError(_) => 500,
            ApiError::RedisError(_) => 500,
            ApiError::JwtError(_) => 500,
            ApiError::ValidationError { .. } => 400,
            ApiError::AuthenticationError => 401,
            ApiError::AuthorizationError => 403,
            ApiError::NotFound => 404,
            ApiError::InternalServerError => 500,
        }
    }

    /// The message shown to the caller.
    pub fn public_message(&self) -> (r: String)
        ensures
            r@ == self.public_text(),
    {
        match self {
            ApiError::DatabaseError(_) => "Database error".to_string(),
            ApiError::ValidationError { message } => message.clone(),
            ApiError::AuthenticationError => "Authentication failed".to_string(),
            ApiError::AuthorizationError => "Authorization failed".to_string(),
            ApiError::NotFound => "Not found".to_string(),
            _ => "Internal server error".to_string(),
        }
    }

    /// The full description for the log.
    pub fn message(&self) -> (r: String)
        ensures
            r@ == self.log_text(),
    {
        match self {
            ApiError::DatabaseError(d) => "Database error: ".to_string().concat(d.as_str()),
            ApiError::RedisError(d) => "Redis error: ".to_string().concat(d.as_str()),
            ApiError::JwtError(d) => "JWT error: ".to_string().concat(d.as_str()),
            ApiError::ValidationError { message } => "Validation error: ".to_string().concat(
                message.as_str(),
            ),
            ApiError::AuthenticationError => "Authentication failed".to_string(),
            ApiError::AuthorizationError => "Authorization failed".to_string(),
            ApiError::NotFound => "Not found".to_string(),
            ApiError::InternalServerError => "Internal server error".to_string(),
        }
    }
}

/// Status for a rejected request.
pub open spec fn rejection_status(cause: RejectionCause<ApiError>) -> u16 {
    match cause {
        RejectionCause::RouteNotFound => 404,
        RejectionCause::Raised(e) => e.status(),
        RejectionCause::BodyDeserialize => 400,
        RejectionCause::MethodNotAllowed => 405,
        RejectionCause::Unhandled => 500,
    }
}

/// Message for a rejected request.
pub open spec fn rejection_text(cause: RejectionCause<ApiError>) -> Seq<char> {
    match cause {
        RejectionCause::RouteNotFound => "Not Found"@,
        RejectionCause::Raised(e) => e.public_text(),
        RejectionCause::BodyDeserialize => "Invalid request body"@,
        RejectionCause::MethodNotAllowed => "Method not allowed"@,
        RejectionCause::Unhandled => "Internal server error"@,
    }
}

/// Turns a rejected request into the body the caller receives. The status
/// of the reply is the `code` of the body.
pub fn handle_rejection(cause: &RejectionCause<ApiError>) -> (r: ErrorMessage)
    ensures
        r.code == rejection_status(*cause),
        r.message@ == rejection_text(*cause),
        400 <= r.code <= 500,
{
    match cause {
        RejectionCause::RouteNotFound => ErrorMessage {
            code: 404,
            message: "Not Found".to_string(),
        },
        RejectionCause::Raised(e) => ErrorMessage {
            code: e.status_code(),
            message: e.public_message(),
        },
        RejectionCause::BodyDeserialize => ErrorMessage {
            code: 400,
            message: "Invalid request body".to_string(),
        },
        RejectionCause::MethodNotAllowed => ErrorMessage {
            code: 405,
            message: "Method not allowed".to_string(),
        },
        RejectionCause::Unhandled => ErrorMessage {
            code: 500,
            message: "Internal server error".to_string(),
        },
    }
}

} // verus!
