//! Login with e-mail address and password, and the renewal of a token.

use crate::auth::password::{bcrypt_verifies, verify_password};
use crate::auth::token::{jwt_signed, verify_jwt_token, Claims};
use crate::auth::validation::{
    email_is_valid, errors_of, join_errors, joined, length_is_within, valid_email, within,
    FieldError, FieldErrorView,
};
use crate::clock::{now, Timestamp, TOKEN_LIFETIME_SECS};
use crate::errors::app::AppError;
use crate::ident::{uuid_parse, uuid_text, Uuid};
use crate::response::{failure_reply, is_refusal, Outcome, Reply};
use crate::text::{strip_prefix, without_prefix};
use vstd::prelude::*;

verus! {

/// A user as the store holds it.
#[derive(Debug)]
pub struct User {
    pub id: Uuid,
    pub email: String,
    pub password_hash: String,
    pub created_at: Timestamp,
    pub updated_at: Timestamp,
}

/// A user that is about to be stored.
#[derive(Debug)]
pub struct NewUser {
    pub id: Uuid,
    pub email: String,
    pub password_hash: String,
}

/// What a caller sends to log in.
#[derive(Debug)]
pub struct LoginRequest {
    pub email: String,
    pub password: String,
}

/// What a caller receives after logging in or renewing a token.
#[derive(Debug)]
pub struct LoginResponse {
    pub token: String,
    pub user_id: Uuid,
    pub email: String,
    pub expires_at: Timestamp,
}

/// What the store said when it was asked for the user with an e-mail
/// address.
pub enum UserLookup {
    /// No connection could be had.
    NoConnection,
    /// The user.
    Found(User),
    /// No user has the address.
    NotFound,
    /// The query failed.
    QueryFailed,
}

/// Least number of characters of a password.
pub const MIN_PASSWORD_CHARS: u64 = 6;

/// What is wrong with a login request: the address, if it is no e-mail
/// address, then the password, if it is too short.
pub open spec fn login_errors(req: &LoginRequest) -> Seq<FieldErrorView> {
    let email = if valid_email(req.email@) {
        Seq::<FieldErrorView>::empty()
    } else {
        seq![FieldErrorView { field: "email"@, message: "Invalid email format"@ }]
    };
    let password = if within(req.password@.len(), Some(MIN_PASSWORD_CHARS), None) {
        Seq::<FieldErrorView>::empty()
    } else {
        seq![
            FieldErrorView {
                field: "password"@,
                message: "Password must be at least 6 characters"@,
            },
        ]
    };
    email + password
}

impl LoginRequest {
    /// Checks the request: the address must be an e-mail address and the
    /// password must have at least six characters.
    pub fn validate(&self) -> (r: Result<(), Vec<FieldError>>)
        ensures
            r is Ok <==> login_errors(self).len() == 0,
            r matches Err(errors) ==> errors_of(errors@) == login_errors(self),
    {
        let mut errors: Vec<FieldError> = Vec::new();
        if !email_is_valid(self.email.as_str()) {
            errors.push(
                FieldError { field: "email".to_string(), message: "Invalid email format".to_string() },
            );
        }
        if !length_is_within(self.password.as_str(), Some(MIN_PASSWORD_CHARS), None) {
            errors.push(
                FieldError {
                    field: "password".to_string(),
                    message: "Password must be at least 6 characters".to_string(),
                },
            );
        }
        proof {
            assert(errors_of(errors@) =~= login_errors(self));
        }
        if errors.len() == 0 {
            Ok(())
        } else {
            Err(errors)
        }
    }
}

/// The time at which a token issued at `at` expires.
pub open spec fn expiry_of(at: Timestamp) -> Timestamp {
    Timestamp { secs: (at.secs + TOKEN_LIFETIME_SECS) as i64, nanos: at.nanos }
}

/// Whether `r` is the reply that hands `token` to the user.
pub open spec fn is_login(
    r: Reply<Outcome<LoginResponse>>,
    token: Seq<char>,
    user_id: Uuid,
    email: Seq<char>,
    at: Timestamp,
) -> bool {
    &&& r.status == 200
    &&& r.body matches Outcome::Payload(p) && p.token@ == token && p.user_id == user_id && p.email@
        == email && p.expires_at == expiry_of(at)
}

/// Whether `r` is the reply to a login at the time `at`.
pub open spec fn login_reply(
    req: &LoginRequest,
    lookup: UserLookup,
    secret: Seq<char>,
    at: Timestamp,
    r: Reply<Outcome<LoginResponse>>,
) -> bool {
    if login_errors(req).len() > 0 {
        is_refusal(r, "Validation Error"@, "Invalid input: "@ + joined(login_errors(req)), 400)
    } else {
        match lookup {
            UserLookup::NoConnection => is_refusal(
                r,
                "Database Error"@,
                "Failed to get database connection"@,
                500,
            ),
            UserLookup::NotFound => is_refusal(
                r,
                "Authentication Failed"@,
                "Invalid email or password"@,
                401,
            ),
            UserLookup::QueryFailed => is_refusal(
                r,
                "Database Error"@,
                "Failed to query user"@,
                500,
            ),
            UserLookup::Found(user) => match bcrypt_verifies(req.password@, user.password_hash@) {
                None => is_refusal(r, "Server Error"@, "Password verification failed"@, 500),
                Some(false) => is_refusal(
                    r,
                    "Authentication Failed"@,
                    "Invalid email or password"@,
                    401,
                ),
                Some(true) => match jwt_signed(
                    uuid_text(user.id.bits),
                    Some(user.email@),
                    (at.secs + TOKEN_LIFETIME_SECS) as u64,
                    at.secs as u64,
                    secret,
                ) {
                    Some(token) => is_login(r, token, user.id, user.email@, at),
                    None => is_refusal(
                        r,
                        "Token Generation Error"@,
                        "Failed to generate JWT token"@,
                        500,
                    ),
                },
            },
        }
    }
}

/// Signs claims for the subject at `at` and wraps them for the caller;
/// `failed` is the message where signing fails.
fn grant(
    user_id: Uuid,
    sub: String,
    email: String,
    secret: &str,
    at: Timestamp,
    failed: &str,
) -> (r: Reply<Outcome<LoginResponse>>)
    requires
        0 <= at.secs <= i64::MAX - TOKEN_LIFETIME_SECS,
    ensures
        match jwt_signed(
            sub@,
            Some(email@),
            (at.secs + TOKEN_LIFETIME_SECS) as u64,
            at.secs as u64,
            secret@,
        ) {
            Some(token) => is_login(r, token, user_id, email@, at),
            None => is_refusal(r, "Token Generation Error"@, failed@, 500),
        },
{
    let claims = Claims::issue(sub, Some(email.clone()), at);
    match claims.sign(secret) {
        Ok(token) => Reply {
            status: 200,
            body: Outcome::Payload(
                LoginResponse {
                    token,
                    user_id,
                    email,
                    expires_at: Timestamp { secs: at.secs + TOKEN_LIFETIME_SECS, nanos: at.nanos },
                },
            ),
        },
        Err(_) => failure_reply("Token Generation Error", failed, 500),
    }
}

/// Answers a login at the time `at`. The request is checked first; an
/// invalid one is answered with 400 whatever `lookup` says, and the
/// store is to be asked only for a request that `validate` lets pass.
/// An unknown address and a wrong password are answered alike.
pub fn login_handler_at(req: &LoginRequest, lookup: UserLookup, secret: &str, at: Timestamp) -> (r:
    Reply<Outcome<LoginResponse>>)
    requires
        0 <= at.secs <= i64::MAX - TOKEN_LIFETIME_SECS,
    ensures
        login_reply(req, lookup, secret@, at, r),
{
    if let Err(errors) = req.validate() {
        let message = "Invalid input: ".to_string().concat(join_errors(&errors).as_str());
        return failure_reply("Validation Error", message.as_str(), 400);
    }
    match lookup {
        UserLookup::NoConnection => failure_reply(
            "Database Error",
            "Failed to get database connection",
            500,
        ),
        UserLookup::NotFound => failure_reply(
            "Authentication Failed",
            "Invalid email or password",
            401,
        ),
        UserLookup::QueryFailed => failure_reply("Database Error", "Failed to query user", 500),
        UserLookup::Found(user) => {
            match verify_password(req.password.as_str(), user.password_hash.as_str()) {
                Ok(true) => grant(
                    user.id,
                    user.id.to_text(),
                    user.email,
                    secret,
                    at,
                    "Failed to generate JWT token",
                ),
                Ok(false) => failure_reply(
                    "Authentication Failed",
                    "Invalid email or password",
                    401,
                ),
                Err(_) => failure_reply("Server Error", "Password verification failed", 500),
            }
        },
    }
}

/// Answers a login now: the reply to a login at some time not before
/// the epoch.
pub fn login_handler(req: &LoginRequest, lookup: UserLookup, secret: &str) -> (r: Reply<
    Outcome<LoginResponse>,
>)
    ensures
        exists|at: Timestamp| at.secs >= 0 && #[trigger] login_reply(req, lookup, secret@, at, r),
{
    let at = now();
    login_handler_at(req, lookup, secret, at)
}

/// Whether `r` is the reply to the renewal, at the time `at`, of a token
/// whose verification ended with `verified`.
pub open spec fn refresh_reply(
    verified: Result<Claims, AppError>,
    secret: Seq<char>,
    at: Timestamp,
    r: Reply<Outcome<LoginResponse>>,
) -> bool {
    match verified {
        Err(_) => is_refusal(r, "Invalid Token"@, "Token is invalid or expired"@, 401),
        Ok(claims) => match (uuid_parse(claims.sub@), claims.email) {
            (Some(bits), Some(email)) => match jwt_signed(
                claims.sub@,
                Some(email@),
                (at.secs + TOKEN_LIFETIME_SECS) as u64,
                at.secs as u64,
                secret,
            ) {
                Some(token) => is_login(r, token, Uuid { bits }, email@, at),
                None => is_refusal(
                    r,
                    "Token Generation Error"@,
                    "Failed to generate new JWT token"@,
                    500,
                ),
            },
            _ => is_refusal(r, "Invalid Token"@, "Token is invalid or expired"@, 401),
        },
    }
}

/// Renews a token at the time `at`, given what the verification of the
/// old one came back with: a token that verified, names a user and
/// carries an e-mail address is replaced by one with the same subject
/// and address, valid for 24 hours from `at`. Every other token is
/// answered with 401.
pub fn refresh_handler_at(verified: Result<Claims, AppError>, secret: &str, at: Timestamp) -> (r:
    Reply<Outcome<LoginResponse>>)
    requires
        0 <= at.secs <= i64::MAX - TOKEN_LIFETIME_SECS,
    ensures
        refresh_reply(verified, secret@, at, r),
{
    match verified {
        Ok(claims) => {
            let user_id = match claims.user_id() {
                Ok(id) => id,
                Err(_) => {
                    return failure_reply("Invalid Token", "Token is invalid or expired", 401);
                },
            };
            match claims.email {
                Some(email) => grant(
                    user_id,
                    claims.sub,
                    email,
                    secret,
                    at,
                    "Failed to generate new JWT token",
                ),
                None => failure_reply("Invalid Token", "Token is invalid or expired", 401),
            }
        },
        Err(_) => failure_reply("Invalid Token", "Token is invalid or expired", 401),
    }
}

/// The token that an `Authorization` header presents for renewal: what
/// follows `Bearer `, or the whole header where it does not start so.
pub open spec fn presented(header: Seq<char>) -> Seq<char> {
    match without_prefix(header, "Bearer "@) {
        Some(token) => token,
        None => header,
    }
}

/// The token that an `Authorization` header presents for renewal.
pub fn presented_token<'a>(header: &'a str) -> (r: &'a str)
    ensures
        r@ == presented(header@),
{
    match strip_prefix(header, "Bearer ") {
        Some(token) => token,
        None => header,
    }
}

/// Renews the token in an `Authorization` header now. The token is
/// what follows `Bearer `, or the whole header where it does not start
/// so. A header without a token that verifies is answered with 401.
pub fn refresh_handler(header: &str, secret: &str) -> (r: Reply<Outcome<LoginResponse>>)
    ensures
        exists|verified: Result<Claims, AppError>, at: Timestamp|
            at.secs >= 0 && #[trigger] refresh_reply(verified, secret@, at, r),
{
    let token = presented_token(header);
    let verified = verify_jwt_token(token, secret);
    let at = now();
    refresh_handler_at(verified, secret, at)
}

} // verus!
