//! Errors of the content and account surface.

use crate::clock::{now, Timestamp};
use crate::errors::RejectionCause;
use vstd::prelude::*;

verus! {

/// What can go wrong while serving a request. The variants that stem from
/// a collaborator carry its own description of the failure, which is kept
/// for the log and never shown to the caller.
#[derive(Debug)]
pub enum AppError {
    Database(String),
    Redis(String),
    Jwt(String),
    BCrypt(String),
    Validation(String),
    NotFound,
    Unauthorized,
    Internal,
}

/// The body of a rejected request.
#[derive(Debug)]
pub struct RejectionBody {
    pub success: bool,
    pub error: String,
    pub timestamp: Timestamp,
    pub status_code: u16,
}

impl AppError {
    /// HTTP status that goes with the error.
    pub open spec fn status(&self) -> u16 {
        match self {
            AppError::NotFound => 404,
            AppError::Unauthorized => 401,
            AppError::Validation(_) => 400,
            AppError::Database(_) => 500,
            AppError::Redis(_) => 500,
            AppError::Internal => 500,
            AppError::Jwt(_) => 401,
            AppError::BCrypt(_) => 401,
        }
    }

    /// The message shown to the caller. Failures of a collaborator are
    /// reduced to a fixed phrase; only a validation message is passed on.
    pub open spec fn public_text(&self) -> Seq<char> {
        match self {
            AppError::NotFound => "资源未找到"@,
            AppError::Unauthorized => "未授权访问"@,
            AppError::Validation(m) => m@,
            AppError::Database(_) => "内部服务器错误"@,
            AppError::Redis(_) => "内部服务器错误"@,
            AppError::Internal => "内部服务器错误"@,
            AppError::Jwt(_) => "身份验证失败"@,
            AppError::BCrypt(_) => "身份验证失败"@,
        }
    }

    /// The full description for the log, collaborator detail included.
    pub open spec fn log_text(&self) -> Seq<char> {
        match self {
            AppError::Database(d) => "数据库错误: "@ + d@,
            AppError::Redis(d) => "Redis错误: "@ + d@,
            AppError::Jwt(d) => "JWT错误: "@ + d@,
            AppError::BCrypt(d) => "BCrypt错误: "@ + d@,
            AppError::Validation(m) => "验证错误: "@ + m@,
            AppError::NotFound => "未找到"@,
            AppError::Unauthorized => "未授权"@,
            AppError::Internal => "内部服务器错误"@,
        }
    }

    /// HTTP status that goes with the error.
    pub fn status_code(&self) -> (r: u16)
        ensures
            r == self.status(),
    {
        match self {
            AppError::NotFound => 404,
            AppError::Unauthorized => 401,
            AppError::Validation(_) => 400,
            AppError::Database(_) => 500,
            AppError::Redis(_) => 500,
            AppError::Internal => 500,
            AppError::Jwt(_) => 401,
            AppError::BCrypt(_) => 401,
        }
    }

    /// The message shown to the caller.
    pub fn public_message(&self) -> (r: String)
        ensures
            r@ == self.public_text(),
    {
        match self {
            AppError::NotFound => "资源未找到".to_string(),
            AppError::Unauthorized => "未授权访问".to_string(),
            AppError::Validation(m) => m.clone(),
            AppError::Database(_) => "内部服务器错误".to_string(),
            AppError::Redis(_) => "内部服务器错误".to_string(),
            AppError::Internal => "内部服务器错误".to_string(),
            AppError::Jwt(_) => "身份验证失败".to_string(),
            AppError::BCrypt(_) => "身份验证失败".to_string(),
        }
    }

    /// The full description for the log.
    pub fn message(&self) -> (r: String)
        ensures
            r@ == self.log_text(),
    {
        match self {
            AppError::Database(d) => "数据库错误: ".to_string().concat(d.as_str()),
            AppError::Redis(d) => "Redis错误: ".to_string().concat(d.as_str()),
            AppError::Jwt(d) => "JWT错误: ".to_string().concat(d.as_str()),
            AppError::BCrypt(d) => "BCrypt错误: ".to_string().concat(d.as_str()),
            AppError::Validation(m) => "验证错误: ".to_string().concat(m.as_str()),
            AppError::NotFound => "未找到".to_string(),
            AppError::Unauthorized => "未授权".to_string(),
            AppError::Internal => "内部服务器错误".to_string(),
        }
    }
}

/// Status for a rejected request.
pub open spec fn rejection_status(cause: RejectionCause<AppError>) -> u16 {
    match cause {
        RejectionCause::RouteNotFound => 404,
        RejectionCause::Raised(e) => e.status(),
        RejectionCause::BodyDeserialize => 400,
        RejectionCause::MethodNotAllowed => 405,
        RejectionCause::Unhandled => 500,
    }
}

/// Message for a rejected request.
pub open spec fn rejection_text(cause: RejectionCause<AppError>) -> Seq<char> {
    match cause {
        RejectionCause::RouteNotFound => "路由未找到"@,
        RejectionCause::Raised(e) => e.public_text(),
        RejectionCause::BodyDeserialize => "请求体格式错误"@,
        RejectionCause::MethodNotAllowed => "HTTP方法不允许"@,
        RejectionCause::Unhandled => "内部服务器错误"@,
    }
}

/// Turns a rejected request into the body the caller receives, stamped `at`.
pub fn rejection_body_at(cause: &RejectionCause<AppError>, at: Timestamp) -> (r: RejectionBody)
    ensures
        !r.success,
        r.status_code == rejection_status(*cause),
        r.error@ == rejection_text(*cause),
        r.timestamp == at,
        400 <= r.status_code <= 500,
{
    let (status_code, error) = match cause {
        RejectionCause::RouteNotFound => (404u16, "路由未找到".to_string()),
        RejectionCause::Raised(e) => (e.status_code(), e.public_message()),
        RejectionCause::BodyDeserialize => (400u16, "请求体格式错误".to_string()),
        RejectionCause::MethodNotAllowed => (405u16, "HTTP方法不允许".to_string()),
        RejectionCause::Unhandled => (500u16, "内部服务器错误".to_string()),
    };
    RejectionBody { success: false, error, timestamp: at, status_code }
}

/// Turns a rejected request into the body the caller receives, stamped
/// with the current time. The status of the reply is the `status_code`
/// of the body.
pub fn handle_rejection(cause: &RejectionCause<AppError>) -> (r: RejectionBody)
    ensures
        !r.success,
        r.status_code == rejection_status(*cause),
        r.error@ == rejection_text(*cause),
        r.timestamp.secs >= 0,
        400 <= r.status_code <= 500,
{
    rejection_body_at(cause, now())
}

} // verus!
