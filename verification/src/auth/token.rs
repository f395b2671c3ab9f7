//! Bearer tokens: signed claims with a lifetime of 24 hours.

use crate::clock::{now, Timestamp, TOKEN_LIFETIME_SECS};
use crate::errors::app::AppError;
use crate::ident::{uuid_parse, uuid_text, Uuid};
use crate::text::{strip_prefix, without_prefix};
use vstd::prelude::*;

verus! {

/// What a token asserts: its subject (a user identifier as text), for
/// some tokens the subject's e-mail address, and the seconds since the
/// epoch at which it was issued and at which it expires.
#[derive(Debug)]
pub struct Claims {
    pub sub: String,
    pub email: Option<String>,
    pub exp: u64,
    pub iat: u64,
}

/// Mathematical content of a set of claims.
pub struct ClaimsView {
    pub sub: Seq<char>,
    pub email: Option<Seq<char>>,
    pub exp: u64,
    pub iat: u64,
}

impl View for Claims {
    type V = ClaimsView;

    open spec fn view(&self) -> ClaimsView {
        ClaimsView {
            sub: self.sub@,
            email: match self.email {
                Some(e) => Some(e@),
                None => None,
            },
            exp: self.exp,
            iat: self.iat,
        }
    }
}

/// The claims issued at `at` for a subject: valid from then for 24 hours.
pub open spec fn claims_at(sub: Seq<char>, email: Option<Seq<char>>, at: Timestamp) -> ClaimsView {
    ClaimsView { sub, email, exp: (at.secs + TOKEN_LIFETIME_SECS) as u64, iat: at.secs as u64 }
}

/// The error type of the `jsonwebtoken` crate.
#[verifier::external_type_specification]
#[verifier::external_body]
pub struct ExJwtError(jsonwebtoken::errors::Error);

/// A JSON value of the `serde_json` crate.
#[verifier::external_type_specification]
#[verifier::external_body]
pub struct ExJsonValue(serde_json::Value);

/// The token that `jsonwebtoken::encode` makes of the claims with the
/// HS256 algorithm and the secret, or nothing where it refuses.
pub uninterp spec fn jwt_signed(
    sub: Seq<char>,
    email: Option<Seq<char>>,
    exp: u64,
    iat: u64,
    secret: Seq<char>,
) -> Option<Seq<char>>;

/// `jsonwebtoken::encode` with an HS256 header over a JSON object of the
/// four claims (`email` is `null` where absent), keyed with the secret.
///
/// Trusted: the outcome is what `jwt_signed` names. That a token comes
/// back is not said.
#[verifier::external_body]
fn jwt_encode(sub: &str, email: &Option<String>, exp: u64, iat: u64, secret: &str) -> (r: Result<
    String,
    jsonwebtoken::errors::Error,
>)
    ensures
        match r {
            Ok(t) => jwt_signed(
                sub@,
                match email {
                    Some(e) => Some(e@),
                    None => None,
                },
                exp,
                iat,
                secret@,
            ) == Some(t@),
            Err(_) => jwt_signed(
                sub@,
                match email {
                    Some(e) => Some(e@),
                    None => None,
                },
                exp,
                iat,
                secret@,
            ) is None,
        },
{
    let mut claims = serde_json::Map::new();
    claims.insert("sub".to_string(), serde_json::Value::from(sub));
    claims.insert("email".to_string(), serde_json::Value::from(email.clone()));
    claims.insert("exp".to_string(), serde_json::Value::from(exp));
    claims.insert("iat".to_string(), serde_json::Value::from(iat));
    let header = jsonwebtoken::Header::new(jsonwebtoken::Algorithm::HS256);
    jsonwebtoken::encode(&header, &claims, &jsonwebtoken::EncodingKey::from_secret(secret.as_bytes()))
}

/// `jsonwebtoken::decode` with the default HS256 validation, keyed with
/// the secret: checks the signature and that the token carries an
/// expiry that has not passed, and hands out the claims as JSON.
///
/// Trusted: nothing is claimed of the outcome, which depends on the
/// time of the call.
#[verifier::external_body]
fn jwt_decode(token: &str, secret: &str) -> Result<serde_json::Value, jsonwebtoken::errors::Error> {
    let key = jsonwebtoken::DecodingKey::from_secret(secret.as_bytes());
    let validation = jsonwebtoken::Validation::new(jsonwebtoken::Algorithm::HS256);
    match jsonwebtoken::decode::<serde_json::Value>(token, &key, &validation) {
        Ok(data) => Ok(data.claims),
        Err(e) => Err(e),
    }
}

/// `Value::get` and `Value::as_str` of `serde_json`: the text under
/// `name` in a JSON object, if there is one.
///
/// Trusted: nothing is claimed of the outcome.
#[verifier::external_body]
fn json_text_field(value: &serde_json::Value, name: &str) -> Option<String> {
    match value.get(name) {
        Some(v) => v.as_str().map(str::to_string),
        None => None,
    }
}

/// `Value::get` and `Value::as_u64` of `serde_json`: the non-negative
/// integer under `name` in a JSON object, if there is one.
///
/// Trusted: nothing is claimed of the outcome.
#[verifier::external_body]
fn json_u64_field(value: &serde_json::Value, name: &str) -> Option<u64> {
    match value.get(name) {
        Some(v) => v.as_u64(),
        None => None,
    }
}

/// The `Display` text of an error of the `jsonwebtoken` crate.
///
/// Trusted: nothing is claimed of the text.
#[verifier::external_body]
fn jwt_error_text(e: &jsonwebtoken::errors::Error) -> String {
    e.to_string()
}

impl Claims {
    /// The claims issued at `at` for `sub`: valid from then for 24 hours.
    pub fn issue(sub: String, email: Option<String>, at: Timestamp) -> (r: Claims)
        requires
            0 <= at.secs <= i64::MAX - TOKEN_LIFETIME_SECS,
        ensures
            r@ == claims_at(
                sub@,
                match email {
                    Some(e) => Some(e@),
                    None => None,
                },
                at,
            ),
            r.exp == r.iat + TOKEN_LIFETIME_SECS,
    {
        Claims { sub, email, exp: (at.secs + TOKEN_LIFETIME_SECS) as u64, iat: at.secs as u64 }
    }

    /// The claims issued at `at` for the user `user_id`: the subject is
    /// the text of the identifier, so the claims name that user.
    pub fn for_user(user_id: Uuid, email: Option<String>, at: Timestamp) -> (r: Claims)
        requires
            0 <= at.secs <= i64::MAX - TOKEN_LIFETIME_SECS,
        ensures
            r@ == claims_at(
                uuid_text(user_id.bits),
                match email {
                    Some(e) => Some(e@),
                    None => None,
                },
                at,
            ),
            uuid_parse(r.sub@) == Some(user_id.bits),
    {
        Claims::issue(user_id.to_text(), email, at)
    }

    /// Puts claims together from the fields that were found in a token.
    /// Subject, expiry and issue time are required; the e-mail address
    /// is optional.
    pub fn from_fields(
        sub: Option<String>,
        email: Option<String>,
        exp: Option<u64>,
        iat: Option<u64>,
    ) -> (r: Result<Claims, AppError>)
        ensures
            r is Ok <==> sub is Some && exp is Some && iat is Some,
            r matches Ok(c) ==> Some(c.sub) == sub && c.email == email && Some(c.exp) == exp
                && Some(c.iat) == iat,
            r matches Err(e) ==> e is Jwt,
    {
        match (sub, exp, iat) {
            (Some(sub), Some(exp), Some(iat)) => Ok(Claims { sub, email, exp, iat }),
            _ => Err(AppError::Jwt("token lacks a required claim".to_string())),
        }
    }

    /// The user that the claims speak of: the subject read as an
    /// identifier. A subject that is no identifier is unauthorized.
    pub fn user_id(&self) -> (r: Result<Uuid, AppError>)
        ensures
            match r {
                Ok(id) => uuid_parse(self.sub@) == Some(id.bits),
                Err(e) => e is Unauthorized && uuid_parse(self.sub@) is None,
            },
    {
        match Uuid::parse_str(self.sub.as_str()) {
            Ok(id) => Ok(id),
            Err(_) => Err(AppError::Unauthorized),
        }
    }

    /// Signs the claims with the secret.
    pub fn sign(&self, secret: &str) -> (r: Result<String, AppError>)
        ensures
            match r {
                Ok(t) => jwt_signed(self@.sub, self@.email, self.exp, self.iat, secret@) == Some(
                    t@,
                ),
                Err(e) => e is Jwt && jwt_signed(self@.sub, self@.email, self.exp, self.iat, secret@)
                    is None,
            },
    {
        match jwt_encode(self.sub.as_str(), &self.email, self.exp, self.iat, secret) {
            Ok(t) => Ok(t),
            Err(e) => Err(AppError::Jwt(jwt_error_text(&e))),
        }
    }
}

/// The token for `user_id` issued at `at`.
pub open spec fn token_at(user_id: Uuid, at: Timestamp, secret: Seq<char>) -> Option<Seq<char>> {
    jwt_signed(
        uuid_text(user_id.bits),
        None,
        (at.secs + TOKEN_LIFETIME_SECS) as u64,
        at.secs as u64,
        secret,
    )
}

/// Whether `r` is what issuing a token for `user_id` at `at` comes to:
/// the signed token, or a token error where signing is refused.
pub open spec fn token_outcome(
    user_id: Uuid,
    secret: Seq<char>,
    at: Timestamp,
    r: Result<String, AppError>,
) -> bool {
    match r {
        Ok(t) => token_at(user_id, at, secret) == Some(t@),
        Err(e) => e is Jwt && token_at(user_id, at, secret) is None,
    }
}

/// Issues a token for `user_id` at the time `at`, valid for 24 hours.
pub fn create_jwt_token_at(user_id: Uuid, secret: &str, at: Timestamp) -> (r: Result<String, AppError>)
    requires
        0 <= at.secs <= i64::MAX - TOKEN_LIFETIME_SECS,
    ensures
        token_outcome(user_id, secret@, at, r),
{
    Claims::for_user(user_id, None, at).sign(secret)
}

/// Issues a token for `user_id` now, valid for 24 hours: what issuing
/// comes to at some time not before the epoch, be it the token or the
/// refusal to sign.
pub fn create_jwt_token(user_id: Uuid, secret: &str) -> (r: Result<String, AppError>)
    ensures
        exists|at: Timestamp| at.secs >= 0 && #[trigger] token_outcome(user_id, secret@, at, r),
{
    let at = now();
    create_jwt_token_at(user_id, secret, at)
}

/// Checks a token against the secret and the clock and hands out its
/// claims. Every failure, whether of the signature, the expiry or the
/// shape of the claims, is a token error.
pub fn verify_jwt_token(token: &str, secret: &str) -> (r: Result<Claims, AppError>)
    ensures
        r matches Err(e) ==> e is Jwt,
{
    match jwt_decode(token, secret) {
        Ok(json) => Claims::from_fields(
            json_text_field(&json, "sub"),
            json_text_field(&json, "email"),
            json_u64_field(&json, "exp"),
            json_u64_field(&json, "iat"),
        ),
        Err(e) => Err(AppError::Jwt(jwt_error_text(&e))),
    }
}

/// Checks a token and reads the user identifier in its subject.
pub fn extract_user_id_from_token(token: &str, secret: &str) -> (r: Result<Uuid, AppError>)
    ensures
        r matches Err(e) ==> e is Jwt || e is Unauthorized,
{
    match verify_jwt_token(token, secret) {
        Ok(claims) => claims.user_id(),
        Err(e) => Err(e),
    }
}

/// The token that an `Authorization` header carries after `Bearer `.
pub open spec fn bearer_token(header: Seq<char>) -> Option<Seq<char>> {
    without_prefix(header, "Bearer "@)
}

/// Decides what a verified token means for a request, given what
/// verification came back with: the user in the subject, or
/// unauthorized, whatever the reason.
pub fn authorize(verified: Result<Claims, AppError>) -> (r: Result<Uuid, AppError>)
    ensures
        match verified {
            Ok(claims) => match uuid_parse(claims.sub@) {
                Some(bits) => r == Ok::<Uuid, AppError>(Uuid { bits }),
                None => r matches Err(e) && e is Unauthorized,
            },
            Err(_) => r matches Err(e) && e is Unauthorized,
        },
{
    match verified {
        Ok(claims) => claims.user_id(),
        Err(_) => Err(AppError::Unauthorized),
    }
}

/// Authenticates a request by its `Authorization` header: the header
/// must read `Bearer ` and a token that verifies and whose subject is a
/// user identifier. Everything else is unauthorized.
pub fn with_auth(secret: &str, header: &str) -> (r: Result<Uuid, AppError>)
    ensures
        r matches Err(e) ==> e is Unauthorized,
        bearer_token(header@) is None ==> r is Err,
{
    match strip_prefix(header, "Bearer ") {
        Some(token) => authorize(verify_jwt_token(token, secret)),
        None => Err(AppError::Unauthorized),
    }
}

} // verus!
