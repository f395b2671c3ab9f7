//! Error taxonomies of the two API surfaces and the mapping from a
//! rejected request to the status and message the caller sees.

pub mod api;
pub mod app;

use vstd::prelude::*;

verus! {

/// Why a request was turned away before or inside a handler. `E` is the
/// error type that handlers of the surface raise themselves.
pub enum RejectionCause<E> {
    /// No route matched the path.
    RouteNotFound,
    /// A handler raised one of its own errors.
    Raised(E),
    /// The request body could not be read as the expected shape.
    BodyDeserialize,
    /// A route matched the path but not the method.
    MethodNotAllowed,
    /// Anything else.
    Unhandled,
}

} // verus!
