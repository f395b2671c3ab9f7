//! The two character endpoints: what is replied for each way a read can
//! end. Every reply, success or failure, is the uniform envelope.

use crate::characters::filter::{requested_filter, rejection_reason, FilterSpec};
use crate::characters::model::{
    count_pages, page_count, CharacterQuery, HanziCharacter, PaginatedResponse,
};
use crate::characters::orchestrator::{
    after_entity, after_list, entity_result, list_result, Orchestrator, ReadFailure,
};
use crate::characters::store::{listing, lookup, RecordStore, StoreError};
use crate::clock::Timestamp;
use crate::response::{error_reply, is_failure, is_success, success_reply, ApiResponse, Reply};
use vstd::prelude::*;

verus! {

/// What a store failure means for a lookup by identity.
pub open spec fn entity_failure_text(e: StoreError) -> Seq<char> {
    match e {
        StoreError::Unavailable => "Failed to get database connection"@,
        _ => "Failed to fetch character"@,
    }
}

/// Puts the answers of the count query and of the page query together.
/// A negative count is a failed count; more rows than the page size is
/// a failed fetch. Everything else becomes a page that obeys the
/// invariant of pages.
pub fn assemble_page(f: &FilterSpec, total: i64, rows: Vec<HanziCharacter>) -> (r: Result<
    PaginatedResponse<HanziCharacter>,
    StoreError,
>)
    ensures
        total < 0 ==> r == Err::<PaginatedResponse<HanziCharacter>, StoreError>(
            StoreError::CountFailed,
        ),
        total >= 0 && rows.len() > f@.page_size() ==> r == Err::<
            PaginatedResponse<HanziCharacter>,
            StoreError,
        >(StoreError::FetchFailed),
        total >= 0 && rows.len() <= f@.page_size() ==> (r matches Ok(p) && p.data == rows && p.page
            == f@.page_number() && p.limit == f@.page_size() && p.total == total && p.total_pages == page_count(
            total as int,
            f@.page_size(),
        ) && p@.wf()),
{
    if total < 0 {
        return Err(StoreError::CountFailed);
    }
    let limit = f.limit();
    if rows.len() as u64 > limit as u64 {
        return Err(StoreError::FetchFailed);
    }
    Ok(
        PaginatedResponse {
            data: rows,
            page: f.page(),
            limit,
            total,
            total_pages: count_pages(total, limit),
        },
    )
}

/// The reply for a listing that ended with `result`, stamped `at`: the
/// page under status 200; a validation failure under 400 with its
/// message; a store failure under 500 with the fixed phrase that names
/// it, and nothing of what the store itself reported.
pub fn list_reply(result: Result<PaginatedResponse<HanziCharacter>, ReadFailure>, at: Timestamp) -> (r:
    Reply<ApiResponse<PaginatedResponse<HanziCharacter>>>)
    ensures
        r.body.wf(),
        match result {
            Ok(page) => is_success(r, 200, at) && r.body.data == Some(page),
            Err(ReadFailure::Validation(message)) => is_failure(r, 400, message@, at),
            Err(ReadFailure::NotFound) => is_failure(r, 404, "Not found"@, at),
            Err(ReadFailure::Store(e)) => is_failure(r, 500, e.text(), at),
        },
{
    match result {
        Ok(page) => success_reply(200, page, at),
        Err(ReadFailure::Validation(message)) => error_reply(400, message.as_str(), at),
        Err(ReadFailure::NotFound) => error_reply(404, "Not found", at),
        Err(ReadFailure::Store(e)) => error_reply(500, e.describe().as_str(), at),
    }
}

/// The reply for a lookup that ended with `result`, stamped `at`: the
/// character under status 200; an unknown identity under 404; a store
/// failure under 500 with a fixed phrase.
pub fn entity_reply(result: Result<HanziCharacter, ReadFailure>, at: Timestamp) -> (r: Reply<
    ApiResponse<HanziCharacter>,
>)
    ensures
        r.body.wf(),
        match result {
            Ok(c) => is_success(r, 200, at) && r.body.data == Some(c),
            Err(ReadFailure::Validation(message)) => is_failure(r, 400, message@, at),
            Err(ReadFailure::NotFound) => is_failure(r, 404, "Character not found"@, at),
            Err(ReadFailure::Store(e)) => is_failure(r, 500, entity_failure_text(e), at),
        },
{
    match result {
        Ok(c) => success_reply(200, c, at),
        Err(ReadFailure::Validation(message)) => error_reply(400, message.as_str(), at),
        Err(ReadFailure::NotFound) => error_reply(404, "Character not found", at),
        Err(ReadFailure::Store(StoreError::Unavailable)) => error_reply(
            500,
            "Failed to get database connection",
            at,
        ),
        Err(ReadFailure::Store(_)) => error_reply(500, "Failed to fetch character", at),
    }
}

/// Answers a listing from the store alone, without the cache.
pub fn get_characters_from_db(f: &FilterSpec, store: &RecordStore, at: Timestamp) -> (r: Reply<
    ApiResponse<PaginatedResponse<HanziCharacter>>,
>)
    requires
        store.wf(),
    ensures
        r.body.wf(),
        store.is_online() ==> is_success(r, 200, at) && (r.body.data matches Some(page) && page@
            == listing(store@, f@)),
        !store.is_online() ==> is_failure(r, 500, StoreError::Unavailable.text(), at),
{
    match store.list(f) {
        Ok(page) => list_reply(Ok(page), at),
        Err(e) => list_reply(Err(ReadFailure::Store(e)), at),
    }
}

/// Answers a lookup by identity from the store alone, without the cache.
pub fn get_character_from_db(id: i32, store: &RecordStore, at: Timestamp) -> (r: Reply<
    ApiResponse<HanziCharacter>,
>)
    requires
        store.wf(),
    ensures
        r.body.wf(),
        !store.is_online() ==> is_failure(
            r,
            500,
            entity_failure_text(StoreError::Unavailable),
            at,
        ),
        store.is_online() ==> match lookup(store@, id) {
            Some(c) => is_success(r, 200, at) && (r.body.data matches Some(found) && found@ == c),
            None => is_failure(r, 404, "Character not found"@, at),
        },
{
    match store.fetch_by_id(id) {
        Ok(Some(c)) => entity_reply(Ok(c), at),
        Ok(None) => entity_reply(Err(ReadFailure::NotFound), at),
        Err(e) => entity_reply(Err(ReadFailure::Store(e)), at),
    }
}

/// The listing endpoint at the time `at`: validates the query, reads
/// through the cache and replies. An invalid query is answered with 400
/// and touches neither cache nor store.
pub fn get_characters_handler(query: &CharacterQuery, system: &mut Orchestrator, at: Timestamp) -> (r:
    Reply<ApiResponse<PaginatedResponse<HanziCharacter>>>)
    requires
        old(system).wf(),
    ensures
        final(system).wf(),
        r.body.wf(),
        !requested_filter(query).wf() ==> final(system)@ == old(system)@ && is_failure(
            r,
            400,
            rejection_reason(query),
            at,
        ),
        requested_filter(query).wf() ==> {
            let f = requested_filter(query);
            &&& final(system)@ == after_list(old(system)@, f, at.secs as int)
            &&& match list_result(old(system)@, f, at.secs as int) {
                Ok(page) => is_success(r, 200, at) && (r.body.data matches Some(found) && found@
                    == page),
                Err(e) => is_failure(r, 500, e.text(), at),
            }
        },
{
    list_reply(system.fetch_list(query, at.secs), at)
}

/// The lookup endpoint at the time `at`: reads through the cache and
/// replies; an identity that the store does not hold is answered with
/// 404.
pub fn get_character_by_id_handler(id: i32, system: &mut Orchestrator, at: Timestamp) -> (r: Reply<
    ApiResponse<HanziCharacter>,
>)
    requires
        old(system).wf(),
    ensures
        final(system).wf(),
        r.body.wf(),
        final(system)@ == after_entity(old(system)@, id, at.secs as int),
        match entity_result(old(system)@, id, at.secs as int) {
            Ok(Some(c)) => is_success(r, 200, at) && (r.body.data matches Some(found) && found@
                == c),
            Ok(None) => is_failure(r, 404, "Character not found"@, at),
            Err(e) => is_failure(r, 500, entity_failure_text(e), at),
        },
{
    entity_reply(system.fetch_by_id(id, at.secs), at)
}

} // verus!
