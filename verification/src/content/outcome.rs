//! From what the store answered to what the caller receives. The store's
//! own words about a failure (`detail`) go to the log through the error
//! and never into a reply.

use crate::clock::Timestamp;
use crate::errors::app::AppError;
use crate::response::{error_reply, is_failure, is_success, success_reply, ApiResponse, Reply};
use crate::text::{contains_text, text_contains};
use vstd::prelude::*;

verus! {

/// What the store answered: the value, or its description of a failure.
pub type Stored<T> = Result<T, String>;

/// Whether the store's description of a failure speaks of a duplicate key.
pub open spec fn is_duplicate(detail: Seq<char>) -> bool {
    contains_text(detail, "duplicate key"@)
}

/// Success under status 200, a failure of the store as a database error.
pub fn listed<T>(outcome: Stored<T>, at: Timestamp) -> (r: Result<Reply<ApiResponse<T>>, AppError>)
    ensures
        match outcome {
            Ok(items) => r matches Ok(reply) && is_success(reply, 200, at) && reply.body.data
                == Some(items),
            Err(detail) => r matches Err(AppError::Database(d)) && d == detail,
        },
{
    match outcome {
        Ok(items) => Ok(success_reply(200, items, at)),
        Err(detail) => Err(AppError::Database(detail)),
    }
}

/// The record under status 200, `NotFound` where the store holds none,
/// a failure of the store as a database error.
pub fn found<T>(outcome: Stored<Option<T>>, at: Timestamp) -> (r: Result<
    Reply<ApiResponse<T>>,
    AppError,
>)
    ensures
        match outcome {
            Ok(Some(item)) => r matches Ok(reply) && is_success(reply, 200, at) && reply.body.data
                == Some(item),
            Ok(None) => r matches Err(AppError::NotFound),
            Err(detail) => r matches Err(AppError::Database(d)) && d == detail,
        },
{
    match outcome {
        Ok(Some(item)) => Ok(success_reply(200, item, at)),
        Ok(None) => Err(AppError::NotFound),
        Err(detail) => Err(AppError::Database(detail)),
    }
}

/// The new record under status 201. A failure that speaks of a
/// duplicate key is the caller's mistake and is answered with
/// `conflict`; any other failure is a database error.
pub fn created<T>(outcome: Stored<T>, conflict: &str, at: Timestamp) -> (r: Result<
    Reply<ApiResponse<T>>,
    AppError,
>)
    ensures
        match outcome {
            Ok(item) => r matches Ok(reply) && is_success(reply, 201, at) && reply.body.data
                == Some(item),
            Err(detail) => if is_duplicate(detail@) {
                r matches Err(AppError::Validation(m)) && m@ == conflict@
            } else {
                r matches Err(AppError::Database(d)) && d == detail
            },
        },
{
    match outcome {
        Ok(item) => Ok(success_reply(201, item, at)),
        Err(detail) => {
            if text_contains(detail.as_str(), "duplicate key") {
                Err(AppError::Validation(conflict.to_string()))
            } else {
                Err(AppError::Database(detail))
            }
        },
    }
}

/// `done` under status 200 where a record was removed, `NotFound` where
/// there was none, a failure of the store as a database error.
pub fn deleted(outcome: Stored<bool>, done: &str, at: Timestamp) -> (r: Result<
    Reply<ApiResponse<String>>,
    AppError,
>)
    ensures
        match outcome {
            Ok(true) => r matches Ok(reply) && is_success(reply, 200, at) && (
            reply.body.data matches Some(m) && m@ == done@),
            Ok(false) => r matches Err(AppError::NotFound),
            Err(detail) => r matches Err(AppError::Database(d)) && d == detail,
        },
{
    match outcome {
        Ok(true) => Ok(success_reply(200, done.to_string(), at)),
        Ok(false) => Err(AppError::NotFound),
        Err(detail) => Err(AppError::Database(detail)),
    }
}

/// Whether more than no row was affected.
pub fn any_affected(rows_affected: u64) -> (r: bool)
    ensures
        r == (rows_affected > 0),
{
    rows_affected > 0
}

/// The value under `status` in a success envelope; a failure of the
/// store under status 500 with the fixed phrase `failed`.
pub fn enveloped<T>(outcome: Stored<T>, status: u16, failed: &str, at: Timestamp) -> (r: Reply<
    ApiResponse<T>,
>)
    ensures
        r.body.wf(),
        match outcome {
            Ok(item) => is_success(r, status, at) && r.body.data == Some(item),
            Err(_) => is_failure(r, 500, failed@, at),
        },
{
    match outcome {
        Ok(item) => success_reply(status, item, at),
        Err(_) => error_reply(500, failed, at),
    }
}

/// The record under status 200 in a success envelope; status 404 with
/// `missing` where the store holds none; status 500 with `failed` where
/// the store failed.
pub fn enveloped_found<T>(outcome: Stored<Option<T>>, missing: &str, failed: &str, at: Timestamp) -> (r:
    Reply<ApiResponse<T>>)
    ensures
        r.body.wf(),
        match outcome {
            Ok(Some(item)) => is_success(r, 200, at) && r.body.data == Some(item),
            Ok(None) => is_failure(r, 404, missing@, at),
            Err(_) => is_failure(r, 500, failed@, at),
        },
{
    match outcome {
        Ok(Some(item)) => success_reply(200, item, at),
        Ok(None) => error_reply(404, missing, at),
        Err(_) => error_reply(500, failed, at),
    }
}

/// `done` under status 200 where a record was removed; status 404 with
/// `missing` where there was none; status 500 with `failed` where the
/// store failed.
pub fn enveloped_deleted(
    outcome: Stored<bool>,
    done: &str,
    missing: &str,
    failed: &str,
    at: Timestamp,
) -> (r: Reply<ApiResponse<String>>)
    ensures
        r.body.wf(),
        match outcome {
            Ok(true) => is_success(r, 200, at) && (r.body.data matches Some(m) && m@ == done@),
            Ok(false) => is_failure(r, 404, missing@, at),
            Err(_) => is_failure(r, 500, failed@, at),
        },
{
    match outcome {
        Ok(true) => success_reply(200, done.to_string(), at),
        Ok(false) => error_reply(404, missing, at),
        Err(_) => error_reply(500, failed, at),
    }
}

/// The items of `v` in the opposite order.
pub fn reversed<T>(v: Vec<T>) -> (r: Vec<T>)
    ensures
        r@ == v@.reverse(),
{
    let mut rest = v;
    let mut out: Vec<T> = Vec::new();
    while rest.len() > 0
        invariant
            rest@.len() + out@.len() == v@.len(),
            rest@ == v@.subrange(0, rest@.len() as int),
            out@ == v@.subrange(rest@.len() as int, v@.len() as int).reverse(),
        decreases rest.len(),
    {
        let ghost n = rest@.len() as int;
        let item = rest.pop().unwrap();
        out.push(item);
        proof {
            assert(rest@ =~= v@.subrange(0, n - 1));
            assert(out@ =~= v@.subrange(n - 1, v@.len() as int).reverse());
        }
    }
    proof {
        assert(v@.subrange(0, v@.len() as int) =~= v@);
    }
    out
}

} // verus!
