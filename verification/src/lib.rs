//! Content-management core for a classical-literature learning platform:
//! the cache-aside read path for character lookups, its query planner and
//! response envelopes, together with the account and content rules that
//! surround it.

pub mod auth;
pub mod characters;
pub mod clock;
pub mod comments;
pub mod config;
pub mod content;
pub mod errors;
pub mod ident;
pub mod middleware;
pub mod response;
pub mod text;
