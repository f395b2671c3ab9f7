//! Chapters of a classic.

use crate::clock::Timestamp;
use crate::content::outcome::{
    created, deleted, found, is_duplicate, listed, reversed, Stored,
};
use crate::errors::app::AppError;
use crate::ident::Uuid;
use crate::response::{is_success, ApiResponse, Reply};
use vstd::prelude::*;

verus! {

/// A chapter as the store holds it.
#[derive(Debug)]
pub struct Chapter {
    pub id: Uuid,
    pub classic_id: Uuid,
    pub number: i32,
    pub title: String,
    pub content: Option<String>,
    pub created_at: Timestamp,
    pub updated_at: Timestamp,
}

/// What is needed to add a chapter.
#[derive(Debug)]
pub struct CreateChapterRequest {
    pub classic_id: Uuid,
    pub number: i32,
    pub title: String,
    pub content: Option<String>,
}

/// What may be changed of a chapter; an absent field stays as it is.
#[derive(Debug)]
pub struct UpdateChapterRequest {
    pub number: Option<i32>,
    pub title: Option<String>,
    pub content: Option<String>,
}

/// A chapter as it is shown to the caller.
#[derive(Debug)]
pub struct ChapterResponse {
    pub id: Uuid,
    pub classic_id: Uuid,
    pub number: i32,
    pub title: String,
    pub content: Option<String>,
    pub created_at: Timestamp,
    pub updated_at: Timestamp,
}

/// The response that shows `chapter`, field for field.
pub open spec fn shown(chapter: Chapter) -> ChapterResponse {
    ChapterResponse {
        id: chapter.id,
        classic_id: chapter.classic_id,
        number: chapter.number,
        title: chapter.title,
        content: chapter.content,
        created_at: chapter.created_at,
        updated_at: chapter.updated_at,
    }
}

impl From<Chapter> for ChapterResponse {
    fn from(chapter: Chapter) -> (r: ChapterResponse) {
        ChapterResponse {
            id: chapter.id,
            classic_id: chapter.classic_id,
            number: chapter.number,
            title: chapter.title,
            content: chapter.content,
            created_at: chapter.created_at,
            updated_at: chapter.updated_at,
        }
    }
}

impl vstd::std_specs::convert::FromSpecImpl<Chapter> for ChapterResponse {
    open spec fn obeys_from_spec() -> bool {
        true
    }

    open spec fn from_spec(chapter: Chapter) -> ChapterResponse {
        shown(chapter)
    }
}

impl Chapter {
    /// The chapter that a request becomes once it has been given an
    /// identity and the time of its creation.
    pub fn from_request(req: CreateChapterRequest, id: Uuid, at: Timestamp) -> (r: Chapter)
        ensures
            r.id == id,
            r.classic_id == req.classic_id,
            r.number == req.number,
            r.title == req.title,
            r.content == req.content,
            r.created_at == at,
            r.updated_at == at,
    {
        Chapter {
            id,
            classic_id: req.classic_id,
            number: req.number,
            title: req.title,
            content: req.content,
            created_at: at,
            updated_at: at,
        }
    }
}

/// Shows every chapter of a list, in order.
pub fn show_all(chapters: Vec<Chapter>) -> (r: Vec<ChapterResponse>)
    ensures
        r@ == chapters@.map_values(|c: Chapter| shown(c)),
{
    let mut out: Vec<ChapterResponse> = Vec::new();
    let ghost all = chapters@;
    let mut rest = reversed(chapters);
    let ghost show = |c: Chapter| shown(c);
    proof {
        assert(all.subrange(0, all.len() as int) =~= all);
    }
    while rest.len() > 0
        invariant
            show == |c: Chapter| shown(c),
            rest@.len() + out@.len() == all.len(),
            rest@ == all.subrange(out@.len() as int, all.len() as int).reverse(),
            out@ == all.subrange(0, out@.len() as int).map_values(show),
        decreases rest.len(),
    {
        let ghost k = out@.len() as int;
        let ghost before = rest@;
        let chapter = rest.pop().unwrap();
        proof {
            assert(chapter == before[before.len() - 1]);
            assert(before[before.len() - 1] == all.subrange(k, all.len() as int)[0]);
            assert(chapter == all[k]);
        }
        out.push(ChapterResponse::from(chapter));
        proof {
            assert(rest@ =~= all.subrange(k + 1, all.len() as int).reverse());
            assert(out@ =~= all.subrange(0, k + 1).map_values(show));
        }
    }
    proof {
        assert(all.subrange(0, all.len() as int) =~= all);
    }
    out
}

/// The reply to a request for all chapters, or for those of a classic.
pub fn get_all_chapters_handler(outcome: Stored<Vec<Chapter>>, at: Timestamp) -> (r: Result<
    Reply<ApiResponse<Vec<ChapterResponse>>>,
    AppError,
>)
    ensures
        match outcome {
            Ok(all) => r matches Ok(reply) && is_success(reply, 200, at) && (
            reply.body.data matches Some(list) && list@ == all@.map_values(|c: Chapter| shown(c))),
            Err(detail) => r matches Err(AppError::Database(d)) && d == detail,
        },
{
    match outcome {
        Ok(all) => listed(Ok(show_all(all)), at),
        Err(detail) => listed(Err(detail), at),
    }
}

/// The reply to a request for the chapters of a classic.
pub fn get_chapters_by_classic_handler(outcome: Stored<Vec<Chapter>>, at: Timestamp) -> (r: Result<
    Reply<ApiResponse<Vec<ChapterResponse>>>,
    AppError,
>)
    ensures
        match outcome {
            Ok(all) => r matches Ok(reply) && is_success(reply, 200, at) && (
            reply.body.data matches Some(list) && list@ == all@.map_values(|c: Chapter| shown(c))),
            Err(detail) => r matches Err(AppError::Database(d)) && d == detail,
        },
{
    get_all_chapters_handler(outcome, at)
}

fn show_found(outcome: Stored<Option<Chapter>>) -> (r: Stored<Option<ChapterResponse>>)
    ensures
        match outcome {
            Ok(Some(c)) => r == Ok::<Option<ChapterResponse>, String>(Some(shown(c))),
            Ok(None) => r == Ok::<Option<ChapterResponse>, String>(None),
            Err(detail) => r == Err::<Option<ChapterResponse>, String>(detail),
        },
{
    match outcome {
        Ok(Some(c)) => Ok(Some(ChapterResponse::from(c))),
        Ok(None) => Ok(None),
        Err(detail) => Err(detail),
    }
}

/// The reply to a request for one chapter.
pub fn get_chapter_by_id_handler(outcome: Stored<Option<Chapter>>, at: Timestamp) -> (r: Result<
    Reply<ApiResponse<ChapterResponse>>,
    AppError,
>)
    ensures
        match outcome {
            Ok(Some(c)) => r matches Ok(reply) && is_success(reply, 200, at) && reply.body.data
                == Some(shown(c)),
            Ok(None) => r matches Err(AppError::NotFound),
            Err(detail) => r matches Err(AppError::Database(d)) && d == detail,
        },
{
    found(show_found(outcome), at)
}

/// The reply to a request that adds a chapter. A classic has each
/// chapter number once; a second one is the caller's mistake.
pub fn create_chapter_handler(outcome: Stored<Chapter>, at: Timestamp) -> (r: Result<
    Reply<ApiResponse<ChapterResponse>>,
    AppError,
>)
    ensures
        match outcome {
            Ok(c) => r matches Ok(reply) && is_success(reply, 201, at) && reply.body.data == Some(
                shown(c),
            ),
            Err(detail) => if is_duplicate(detail@) {
                r matches Err(AppError::Validation(m)) && m@
                    == "Chapter number already exists for this classic"@
            } else {
                r matches Err(AppError::Database(d)) && d == detail
            },
        },
{
    let outcome = match outcome {
        Ok(c) => Ok(ChapterResponse::from(c)),
        Err(detail) => Err(detail),
    };
    created(outcome, "Chapter number already exists for this classic", at)
}

/// The reply to a request that changes a chapter.
pub fn update_chapter_handler(outcome: Stored<Option<Chapter>>, at: Timestamp) -> (r: Result<
    Reply<ApiResponse<ChapterResponse>>,
    AppError,
>)
    ensures
        match outcome {
            Ok(Some(c)) => r matches Ok(reply) && is_success(reply, 200, at) && reply.body.data
                == Some(shown(c)),
            Ok(None) => r matches Err(AppError::NotFound),
            Err(detail) => r matches Err(AppError::Database(d)) && d == detail,
        },
{
    found(show_found(outcome), at)
}

/// The reply to a request that removes a chapter.
pub fn delete_chapter_handler(outcome: Stored<bool>, at: Timestamp) -> (r: Result<
    Reply<ApiResponse<String>>,
    AppError,
>)
    ensures
        match outcome {
            Ok(true) => r matches Ok(reply) && is_success(reply, 200, at) && (
            reply.body.data matches Some(m) && m@ == "Chapter deleted successfully"@),
            Ok(false) => r matches Err(AppError::NotFound),
            Err(detail) => r matches Err(AppError::Database(d)) && d == detail,
        },
{
    deleted(outcome, "Chapter deleted successfully", at)
}

} // verus!
