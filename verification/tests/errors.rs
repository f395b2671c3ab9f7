use dushulang::clock::Timestamp;
use dushulang::errors::api::{handle_rejection as handle_api_rejection, ApiError};
use dushulang::errors::app::{
    handle_rejection as handle_app_rejection, rejection_body_at, AppError,
};
use dushulang::errors::RejectionCause;
use dushulang::response::{
    error_reply, error_response, error_response_at, error_response_with_path,
    error_response_with_path_at, failure_reply, success_reply, success_response,
    success_response_at, success_response_with_path, success_response_with_path_at, ApiResponse,
    ErrorResponse, Outcome,
};

fn t(secs: i64) -> Timestamp {
    Timestamp::from_secs(secs)
}

#[test]
fn api_rejections_map_to_status_and_public_message() {
    let cases: Vec<(RejectionCause<ApiError>, u16, &str)> = vec![
        (RejectionCause::RouteNotFound, 404, "Not Found"),
        (RejectionCause::Raised(ApiError::DatabaseError("pool timed out at 10.0.0.3".into())), 500, "Database error"),
        (RejectionCause::Raised(ApiError::RedisError("connection refused".into())), 500, "Internal server error"),
        (RejectionCause::Raised(ApiError::JwtError("bad signature".into())), 500, "Internal server error"),
        (RejectionCause::Raised(ApiError::ValidationError { message: "limit must be at least 1".into() }), 400, "limit must be at least 1"),
        (RejectionCause::Raised(ApiError::AuthenticationError), 401, "Authentication failed"),
        (RejectionCause::Raised(ApiError::AuthorizationError), 403, "Authorization failed"),
        (RejectionCause::Raised(ApiError::NotFound), 404, "Not found"),
        (RejectionCause::Raised(ApiError::InternalServerError), 500, "Internal server error"),
        (RejectionCause::BodyDeserialize, 400, "Invalid request body"),
        (RejectionCause::MethodNotAllowed, 405, "Method not allowed"),
        (RejectionCause::Unhandled, 500, "Internal server error"),
    ];
    for (cause, code, message) in cases {
        let body = handle_api_rejection(&cause);
        assert_eq!(body.code, code);
        assert_eq!(body.message, message);
    }
}

#[test]
fn api_errors_keep_detail_for_the_log_only() {
    let e = ApiError::DatabaseError("relation \"hanzi\" does not exist".into());
    assert_eq!(e.status_code(), 500);
    assert_eq!(e.public_message(), "Database error");
    assert_eq!(e.message(), "Database error: relation \"hanzi\" does not exist");
    assert_eq!(ApiError::RedisError("down".into()).message(), "Redis error: down");
    assert_eq!(ApiError::JwtError("expired".into()).message(), "JWT error: expired");
    assert_eq!(ApiError::ValidationError { message: "m".into() }.message(), "Validation error: m");
    assert_eq!(ApiError::AuthenticationError.message(), "Authentication failed");
    assert_eq!(ApiError::AuthorizationError.message(), "Authorization failed");
    assert_eq!(ApiError::NotFound.message(), "Not found");
    assert_eq!(ApiError::InternalServerError.message(), "Internal server error");
    for secret in ["down", "expired", "does not exist"] {
        for e in [
            ApiError::DatabaseError(secret.into()),
            ApiError::RedisError(secret.into()),
            ApiError::JwtError(secret.into()),
        ] {
            assert!(!e.public_message().contains(secret));
        }
    }
}

#[test]
fn app_rejections_map_to_status_and_public_message() {
    let cases: Vec<(RejectionCause<AppError>, u16, &str)> = vec![
        (RejectionCause::RouteNotFound, 404, "路由未找到"),
        (RejectionCause::Raised(AppError::NotFound), 404, "资源未找到"),
        (RejectionCause::Raised(AppError::Unauthorized), 401, "未授权访问"),
        (RejectionCause::Raised(AppError::Validation("坏输入".into())), 400, "坏输入"),
        (RejectionCause::Raised(AppError::Database("pg: boom".into())), 500, "内部服务器错误"),
        (RejectionCause::Raised(AppError::Redis("redis: boom".into())), 500, "内部服务器错误"),
        (RejectionCause::Raised(AppError::Internal), 500, "内部服务器错误"),
        (RejectionCause::Raised(AppError::Jwt("sig".into())), 401, "身份验证失败"),
        (RejectionCause::Raised(AppError::BCrypt("cost".into())), 401, "身份验证失败"),
        (RejectionCause::BodyDeserialize, 400, "请求体格式错误"),
        (RejectionCause::MethodNotAllowed, 405, "HTTP方法不允许"),
        (RejectionCause::Unhandled, 500, "内部服务器错误"),
    ];
    for (cause, code, message) in cases {
        let body = rejection_body_at(&cause, t(77));
        assert!(!body.success);
        assert_eq!(body.status_code, code);
        assert_eq!(body.error, message);
        assert_eq!(body.timestamp, t(77));
        let now = handle_app_rejection(&cause);
        assert_eq!((now.status_code, now.error.as_str(), now.success), (code, message, false));
        assert!(now.timestamp.secs > 1_600_000_000);
    }
}

#[test]
fn app_errors_describe_themselves_for_the_log() {
    assert_eq!(AppError::Database("x".into()).message(), "数据库错误: x");
    assert_eq!(AppError::Redis("x".into()).message(), "Redis错误: x");
    assert_eq!(AppError::Jwt("x".into()).message(), "JWT错误: x");
    assert_eq!(AppError::BCrypt("x".into()).message(), "BCrypt错误: x");
    assert_eq!(AppError::Validation("x".into()).message(), "验证错误: x");
    assert_eq!(AppError::NotFound.message(), "未找到");
    assert_eq!(AppError::Unauthorized.message(), "未授权");
    assert_eq!(AppError::Internal.message(), "内部服务器错误");
    assert_eq!(AppError::Database("x".into()).status_code(), 500);
    assert_eq!(AppError::Jwt("x".into()).status_code(), 401);
    assert_eq!(AppError::Validation("x".into()).public_message(), "x");
    assert_eq!(AppError::Database("secret".into()).public_message(), "内部服务器错误");
}

fn check_shape<T>(r: &ApiResponse<T>, success: bool, error: Option<&str>, path: Option<&str>) {
    assert_eq!(r.success, success);
    assert_eq!(r.data.is_some(), success);
    assert_eq!(r.error.as_deref(), error);
    assert_eq!(r.path.as_deref(), path);
}

#[test]
fn envelopes_carry_data_or_error_never_both() {
    let r = success_response_at(5, t(9));
    check_shape(&r, true, None, None);
    assert_eq!(r.data, Some(5));
    assert_eq!(r.timestamp, t(9));
    let r = error_response_at("broken", t(9));
    check_shape(&r, false, Some("broken"), None);
    assert_eq!(r.timestamp, t(9));
    let r = success_response_with_path_at("x", "/api/a", t(3));
    check_shape(&r, true, None, Some("/api/a"));
    assert_eq!(r.data, Some("x"));
    let r = error_response_with_path_at("broken", "/api/b", t(3));
    check_shape(&r, false, Some("broken"), Some("/api/b"));
}

#[test]
fn envelopes_are_stamped_with_the_current_time() {
    let before = 1_600_000_000;
    let r = success_response(vec![1, 2]);
    check_shape(&r, true, None, None);
    assert_eq!(r.data, Some(vec![1, 2]));
    assert!(r.timestamp.secs > before);
    let r = error_response("经典未找到");
    check_shape(&r, false, Some("经典未找到"), None);
    assert!(r.timestamp.secs > before);
    let r = success_response_with_path((), "/p");
    check_shape(&r, true, None, Some("/p"));
    assert!(r.timestamp.secs > before);
    let r = error_response_with_path("e", "/q");
    check_shape(&r, false, Some("e"), Some("/q"));
    assert!(r.timestamp.secs > before);
}

#[test]
fn replies_pair_a_status_with_a_body() {
    let r = success_reply(201, "made", t(1));
    assert_eq!(r.status, 201);
    check_shape(&r.body, true, None, None);
    let r = error_reply::<u8>(409, "taken", t(1));
    assert_eq!(r.status, 409);
    check_shape(&r.body, false, Some("taken"), None);
    let r = failure_reply::<u8>("Not Found", "Character not found", 404);
    assert_eq!(r.status, 404);
    match r.body {
        Outcome::Failure(e) => {
            assert_eq!((e.error.as_str(), e.message.as_str(), e.code), ("Not Found", "Character not found", 404));
        }
        Outcome::Payload(_) => panic!("expected a failure"),
    }
    let e = ErrorResponse::new("a", "b", 418);
    assert_eq!((e.error.as_str(), e.message.as_str(), e.code), ("a", "b", 418));
}

#[test]
fn timestamps_count_whole_seconds_from_the_epoch() {
    let a = Timestamp::from_secs(1_700_000_000);
    assert_eq!((a.secs, a.nanos), (1_700_000_000, 0));
    assert_eq!(a, Timestamp { secs: 1_700_000_000, nanos: 0 });
    assert_ne!(a, Timestamp { secs: 1_700_000_000, nanos: 1 });
}
