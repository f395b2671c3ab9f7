//! Character lookups: the data model, the query planner, the record store
//! and cache layer it reads from, and the cache-aside read path.

pub mod cache;
pub mod filter;
pub mod handlers;
pub mod key;
pub mod model;
pub mod orchestrator;
pub mod pattern;
pub mod read_path;
pub mod store;
