//! What every reply carries besides its body: the cross-origin policy,
//! the security headers, and the report of the health endpoint.

use crate::clock::{now, Timestamp};
use crate::text::{or_default, text_is, text_or, texts_of};
use vstd::prelude::*;

verus! {

/// The cross-origin policy: any origin may call, with these request
/// headers and methods; a browser may remember the answer for `max_age`
/// seconds.
#[derive(Debug)]
pub struct CorsPolicy {
    pub allow_any_origin: bool,
    pub allowed_headers: Vec<String>,
    pub allowed_methods: Vec<String>,
    pub max_age: u64,
}

/// The cross-origin policy of the API.
pub fn cors() -> (r: CorsPolicy)
    ensures
        r.allow_any_origin,
        texts_of(r.allowed_headers@) == seq![
            "content-type"@,
            "authorization"@,
            "accept"@,
            "origin"@,
            "user-agent"@,
            "x-requested-with"@,
        ],
        texts_of(r.allowed_methods@) == seq![
            "GET"@,
            "POST"@,
            "PUT"@,
            "DELETE"@,
            "PATCH"@,
            "OPTIONS"@,
        ],
        r.max_age == 3600,
{
    let mut allowed_headers: Vec<String> = Vec::new();
    allowed_headers.push("content-type".to_string());
    allowed_headers.push("authorization".to_string());
    allowed_headers.push("accept".to_string());
    allowed_headers.push("origin".to_string());
    allowed_headers.push("user-agent".to_string());
    allowed_headers.push("x-requested-with".to_string());
    let mut allowed_methods: Vec<String> = Vec::new();
    allowed_methods.push("GET".to_string());
    allowed_methods.push("POST".to_string());
    allowed_methods.push("PUT".to_string());
    allowed_methods.push("DELETE".to_string());
    allowed_methods.push("PATCH".to_string());
    allowed_methods.push("OPTIONS".to_string());
    proof {
        assert(texts_of(allowed_headers@) =~= seq![
            "content-type"@,
            "authorization"@,
            "accept"@,
            "origin"@,
            "user-agent"@,
            "x-requested-with"@,
        ]);
        assert(texts_of(allowed_methods@) =~= seq![
            "GET"@,
            "POST"@,
            "PUT"@,
            "DELETE"@,
            "PATCH"@,
            "OPTIONS"@,
        ]);
    }
    CorsPolicy { allow_any_origin: true, allowed_headers, allowed_methods, max_age: 3600 }
}

/// A response header.
#[derive(Debug)]
pub struct Header {
    pub name: String,
    pub value: String,
}

/// Name and value of a header as texts.
pub open spec fn header_texts(h: Header) -> (Seq<char>, Seq<char>) {
    (h.name@, h.value@)
}

/// Names and values of a list of headers.
pub open spec fn headers_of(v: Seq<Header>) -> Seq<(Seq<char>, Seq<char>)> {
    v.map_values(|h: Header| header_texts(h))
}

/// The security headers of every reply.
pub open spec fn base_security_headers() -> Seq<(Seq<char>, Seq<char>)> {
    seq![
        ("X-Content-Type-Options"@, "nosniff"@),
        ("X-Frame-Options"@, "DENY"@),
        ("X-XSS-Protection"@, "1; mode=block"@),
        ("Referrer-Policy"@, "strict-origin-when-cross-origin"@),
        ("Permissions-Policy"@, "geolocation=(), microphone=(), camera=()"@),
        (
            "Content-Security-Policy"@,
            "default-src 'self'; script-src 'self' 'unsafe-inline'; style-src 'self' 'unsafe-inline'; img-src 'self' data: https:; font-src 'self' https:"@,
        ),
    ]
}

/// The header that tells browsers to insist on HTTPS.
pub open spec fn transport_security_header() -> (Seq<char>, Seq<char>) {
    ("Strict-Transport-Security"@, "max-age=31536000; includeSubDomains; preload"@)
}

fn header(name: &str, value: &str) -> (r: Header)
    ensures
        header_texts(r) == (name@, value@),
{
    Header { name: name.to_string(), value: value.to_string() }
}

/// Whether `NODE_ENV` names production.
pub open spec fn names_production(node_env: Option<String>) -> bool {
    node_env matches Some(s) && s@ == "production"@
}

/// The security headers of every reply. Strict transport security is
/// added in production only, that is, where `NODE_ENV` reads
/// `production`.
pub fn security_headers(node_env: &Option<String>) -> (r: Vec<Header>)
    ensures
        headers_of(r@) == if names_production(*node_env) {
            base_security_headers().push(transport_security_header())
        } else {
            base_security_headers()
        },
{
    let mut out: Vec<Header> = Vec::new();
    out.push(header("X-Content-Type-Options", "nosniff"));
    out.push(header("X-Frame-Options", "DENY"));
    out.push(header("X-XSS-Protection", "1; mode=block"));
    out.push(header("Referrer-Policy", "strict-origin-when-cross-origin"));
    out.push(header("Permissions-Policy", "geolocation=(), microphone=(), camera=()"));
    out.push(
        header(
            "Content-Security-Policy",
            "default-src 'self'; script-src 'self' 'unsafe-inline'; style-src 'self' 'unsafe-inline'; img-src 'self' data: https:; font-src 'self' https:",
        ),
    );
    proof {
        assert(headers_of(out@) =~= base_security_headers());
    }
    let production = match node_env {
        Some(s) => text_is(s, "production"),
        None => false,
    };
    if production {
        out.push(header("Strict-Transport-Security", "max-age=31536000; includeSubDomains; preload"));
        proof {
            assert(headers_of(out@) =~= base_security_headers().push(transport_security_header()));
        }
    }
    out
}

/// The state of the services that the server depends on.
#[derive(Debug)]
pub struct ServiceStates {
    pub database: String,
    pub redis: String,
    pub api: String,
}

/// The report of the health endpoint.
#[derive(Debug)]
pub struct HealthReport {
    pub status: String,
    pub service: String,
    pub version: String,
    pub timestamp: Timestamp,
    pub environment: String,
    pub services: ServiceStates,
}

/// The health report at the time `at`: the server is up, and says which
/// environment it runs in (`development` where `NODE_ENV` is not set).
pub fn health_check_at(node_env: &Option<String>, at: Timestamp) -> (r: HealthReport)
    ensures
        r.status@ == "healthy"@,
        r.service@ == "xiaoxiao-dushulang-rust-backend"@,
        r.version@ == "2.0.0"@,
        r.timestamp == at,
        r.environment@ == text_or(*node_env, "development"@),
        r.services.database@ == "connected"@,
        r.services.redis@ == "connected"@,
        r.services.api@ == "running"@,
{
    HealthReport {
        status: "healthy".to_string(),
        service: "xiaoxiao-dushulang-rust-backend".to_string(),
        version: "2.0.0".to_string(),
        timestamp: at,
        environment: or_default(node_env, "development"),
        services: ServiceStates {
            database: "connected".to_string(),
            redis: "connected".to_string(),
            api: "running".to_string(),
        },
    }
}

/// The health report now.
pub fn health_check(node_env: &Option<String>) -> (r: HealthReport)
    ensures
        r.status@ == "healthy"@,
        r.service@ == "xiaoxiao-dushulang-rust-backend"@,
        r.version@ == "2.0.0"@,
        r.timestamp.secs >= 0,
        r.environment@ == text_or(*node_env, "development"@),
        r.services.database@ == "connected"@,
        r.services.redis@ == "connected"@,
        r.services.api@ == "running"@,
{
    health_check_at(node_env, now())
}

} // verus!
