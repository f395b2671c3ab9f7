//! The uniform response envelope and the plain error body.

use crate::clock::{now, Timestamp};
use vstd::prelude::*;

verus! {

/// The envelope that wraps every payload: `success` tells which of `data`
/// and `error` is present.
pub struct ApiResponse<T> {
    pub success: bool,
    pub data: Option<T>,
    pub error: Option<String>,
    pub timestamp: Timestamp,
    pub path: Option<String>,
}

impl<T> ApiResponse<T> {
    /// A well-formed envelope carries data exactly when it reports
    /// success, and an error message exactly when it does not.
    pub open spec fn wf(&self) -> bool {
        &&& self.success <==> self.data is Some
        &&& !self.success <==> self.error is Some
    }
}

/// A success envelope around `data`, stamped `at`.
pub fn success_response_at<T>(data: T, at: Timestamp) -> (r: ApiResponse<T>)
    ensures
        r.success,
        r.data == Some(data),
        r.error is None,
        r.path is None,
        r.timestamp == at,
        r.wf(),
{
    ApiResponse { success: true, data: Some(data), error: None, timestamp: at, path: None }
}

/// A failure envelope with `message`, stamped `at`.
pub fn error_response_at(message: &str, at: Timestamp) -> (r: ApiResponse<()>)
    ensures
        !r.success,
        r.data is None,
        r.error matches Some(e) && e@ == message@,
        r.path is None,
        r.timestamp == at,
        r.wf(),
{
    ApiResponse {
        success: false,
        data: None,
        error: Some(message.to_string()),
        timestamp: at,
        path: None,
    }
}

/// A success envelope around `data` for the request `path`, stamped `at`.
pub fn success_response_with_path_at<T>(data: T, path: &str, at: Timestamp) -> (r: ApiResponse<T>)
    ensures
        r.success,
        r.data == Some(data),
        r.error is None,
        r.path matches Some(p) && p@ == path@,
        r.timestamp == at,
        r.wf(),
{
    ApiResponse {
        success: true,
        data: Some(data),
        error: None,
        timestamp: at,
        path: Some(path.to_string()),
    }
}

/// A failure envelope with `message` for the request `path`, stamped `at`.
pub fn error_response_with_path_at(message: &str, path: &str, at: Timestamp) -> (r: ApiResponse<()>)
    ensures
        !r.success,
        r.data is None,
        r.error matches Some(e) && e@ == message@,
        r.path matches Some(p) && p@ == path@,
        r.timestamp == at,
        r.wf(),
{
    ApiResponse {
        success: false,
        data: None,
        error: Some(message.to_string()),
        timestamp: at,
        path: Some(path.to_string()),
    }
}

/// A success envelope around `data`, stamped with the current time.
pub fn success_response<T>(data: T) -> (r: ApiResponse<T>)
    ensures
        r.success,
        r.data == Some(data),
        r.error is None,
        r.path is None,
        r.timestamp.secs >= 0,
        r.wf(),
{
    success_response_at(data, now())
}

/// A failure envelope with `message`, stamped with the current time.
pub fn error_response(message: &str) -> (r: ApiResponse<()>)
    ensures
        !r.success,
        r.data is None,
        r.error matches Some(e) && e@ == message@,
        r.path is None,
        r.timestamp.secs >= 0,
        r.wf(),
{
    error_response_at(message, now())
}

/// A success envelope around `data` for the request `path`, stamped with
/// the current time.
pub fn success_response_with_path<T>(data: T, path: &str) -> (r: ApiResponse<T>)
    ensures
        r.success,
        r.data == Some(data),
        r.error is None,
        r.path matches Some(p) && p@ == path@,
        r.timestamp.secs >= 0,
        r.wf(),
{
    success_response_with_path_at(data, path, now())
}

/// A failure envelope with `message` for the request `path`, stamped with
/// the current time.
pub fn error_response_with_path(message: &str, path: &str) -> (r: ApiResponse<()>)
    ensures
        !r.success,
        r.data is None,
        r.error matches Some(e) && e@ == message@,
        r.path matches Some(p) && p@ == path@,
        r.timestamp.secs >= 0,
        r.wf(),
{
    error_response_with_path_at(message, path, now())
}

/// The plain error body: a short title, a human-readable message and the
/// HTTP status code it travels with.
pub struct ErrorResponse {
    pub error: String,
    pub message: String,
    pub code: u16,
}

/// Mathematical content of an error body.
pub struct ErrorResponseView {
    pub error: Seq<char>,
    pub message: Seq<char>,
    pub code: u16,
}

impl View for ErrorResponse {
    type V = ErrorResponseView;

    open spec fn view(&self) -> ErrorResponseView {
        ErrorResponseView { error: self.error@, message: self.message@, code: self.code }
    }
}

impl ErrorResponse {
    /// An error body from its three parts.
    pub fn new(error: &str, message: &str, code: u16) -> (r: ErrorResponse)
        ensures
            r@ == (ErrorResponseView { error: error@, message: message@, code }),
    {
        ErrorResponse { error: error.to_string(), message: message.to_string(), code }
    }
}

/// A reply as the HTTP layer sends it: a status code and a body.
pub struct Reply<B> {
    pub status: u16,
    pub body: B,
}

/// The body of a reply that is either a bare payload or an error body.
pub enum Outcome<T> {
    Payload(T),
    Failure(ErrorResponse),
}

/// Whether `r` is the success envelope around some payload, stamped `at`,
/// under the status `status`.
pub open spec fn is_success<T>(r: Reply<ApiResponse<T>>, status: u16, at: Timestamp) -> bool {
    &&& r.status == status
    &&& r.body.success
    &&& r.body.data is Some
    &&& r.body.error is None
    &&& r.body.path is None
    &&& r.body.timestamp == at
}

/// Whether `r` is the failure envelope with `message`, stamped `at`,
/// under the status `status`.
pub open spec fn is_failure<T>(
    r: Reply<ApiResponse<T>>,
    status: u16,
    message: Seq<char>,
    at: Timestamp,
) -> bool {
    &&& r.status == status
    &&& !r.body.success
    &&& r.body.data is None
    &&& r.body.error matches Some(e) && e@ == message
    &&& r.body.path is None
    &&& r.body.timestamp == at
}

/// The reply that carries `data` in a success envelope.
pub fn success_reply<T>(status: u16, data: T, at: Timestamp) -> (r: Reply<ApiResponse<T>>)
    ensures
        is_success(r, status, at),
        r.body.data == Some(data),
        r.body.wf(),
{
    Reply { status, body: success_response_at(data, at) }
}

/// The reply that carries `message` in a failure envelope.
pub fn error_reply<T>(status: u16, message: &str, at: Timestamp) -> (r: Reply<ApiResponse<T>>)
    ensures
        is_failure(r, status, message@, at),
        r.body.wf(),
{
    Reply {
        status,
        body: ApiResponse {
            success: false,
            data: None,
            error: Some(message.to_string()),
            timestamp: at,
            path: None,
        },
    }
}

/// Whether `r` is the error body with the given title, message and
/// code, under the status that the code names.
pub open spec fn is_refusal<T>(
    r: Reply<Outcome<T>>,
    error: Seq<char>,
    message: Seq<char>,
    code: u16,
) -> bool {
    &&& r.status == code
    &&& r.body matches Outcome::Failure(e) && e@ == (ErrorResponseView { error, message, code })
}

/// The reply that reports an error: the error body, under the status
/// that it names.
pub fn failure_reply<T>(error: &str, message: &str, code: u16) -> (r: Reply<Outcome<T>>)
    ensures
        is_refusal(r, error@, message@, code),
{
    Reply { status: code, body: Outcome::Failure(ErrorResponse::new(error, message, code)) }
}

} // verus!
