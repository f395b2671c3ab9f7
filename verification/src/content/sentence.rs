//! Sentences of a chapter.

use crate::clock::Timestamp;
use crate::content::outcome::{
    created, deleted, found, is_duplicate, listed, reversed, Stored,
};
use crate::errors::app::AppError;
use crate::ident::Uuid;
use crate::response::{is_success, ApiResponse, Reply};
use vstd::prelude::*;

verus! {

/// A sentence as the store holds it: the text, how it is read and what
/// it means.
#[derive(Debug)]
pub struct Sentence {
    pub id: Uuid,
    pub chapter_id: Uuid,
    pub number: i32,
    pub text: String,
    pub pinyin: Option<String>,
    pub translation: Option<String>,
    pub created_at: Timestamp,
    pub updated_at: Timestamp,
}

/// What is needed to add a sentence.
#[derive(Debug)]
pub struct CreateSentenceRequest {
    pub chapter_id: Uuid,
    pub number: i32,
    pub text: String,
    pub pinyin: Option<String>,
    pub translation: Option<String>,
}

/// What may be changed of a sentence; an absent field stays as it is.
#[derive(Debug)]
pub struct UpdateSentenceRequest {
    pub number: Option<i32>,
    pub text: Option<String>,
    pub pinyin: Option<String>,
    pub translation: Option<String>,
}

/// A sentence as it is shown to the caller.
#[derive(Debug)]
pub struct SentenceResponse {
    pub id: Uuid,
    pub chapter_id: Uuid,
    pub number: i32,
    pub text: String,
    pub pinyin: Option<String>,
    pub translation: Option<String>,
    pub created_at: Timestamp,
    pub updated_at: Timestamp,
}

/// The response that shows `sentence`, field for field.
pub open spec fn shown(sentence: Sentence) -> SentenceResponse {
    SentenceResponse {
        id: sentence.id,
        chapter_id: sentence.chapter_id,
        number: sentence.number,
        text: sentence.text,
        pinyin: sentence.pinyin,
        translation: sentence.translation,
        created_at: sentence.created_at,
        updated_at: sentence.updated_at,
    }
}

impl From<Sentence> for SentenceResponse {
    fn from(sentence: Sentence) -> (r: SentenceResponse) {
        SentenceResponse {
            id: sentence.id,
            chapter_id: sentence.chapter_id,
            number: sentence.number,
            text: sentence.text,
            pinyin: sentence.pinyin,
            translation: sentence.translation,
            created_at: sentence.created_at,
            updated_at: sentence.updated_at,
        }
    }
}

impl vstd::std_specs::convert::FromSpecImpl<Sentence> for SentenceResponse {
    open spec fn obeys_from_spec() -> bool {
        true
    }

    open spec fn from_spec(sentence: Sentence) -> SentenceResponse {
        shown(sentence)
    }
}

impl Sentence {
    /// The sentence that a request becomes once it has been given an
    /// identity and the time of its creation.
    pub fn from_request(req: CreateSentenceRequest, id: Uuid, at: Timestamp) -> (r: Sentence)
        ensures
            r.id == id,
            r.chapter_id == req.chapter_id,
            r.number == req.number,
            r.text == req.text,
            r.pinyin == req.pinyin,
            r.translation == req.translation,
            r.created_at == at,
            r.updated_at == at,
    {
        Sentence {
            id,
            chapter_id: req.chapter_id,
            number: req.number,
            text: req.text,
            pinyin: req.pinyin,
            translation: req.translation,
            created_at: at,
            updated_at: at,
        }
    }
}

/// Shows every sentence of a list, in order.
pub fn show_all(sentences: Vec<Sentence>) -> (r: Vec<SentenceResponse>)
    ensures
        r@ == sentences@.map_values(|c: Sentence| shown(c)),
{
    let mut out: Vec<SentenceResponse> = Vec::new();
    let ghost all = sentences@;
    let mut rest = reversed(sentences);
    let ghost show = |c: Sentence| shown(c);
    proof {
        assert(all.subrange(0, all.len() as int) =~= all);
    }
    while rest.len() > 0
        invariant
            show == |c: Sentence| shown(c),
            rest@.len() + out@.len() == all.len(),
            rest@ == all.subrange(out@.len() as int, all.len() as int).reverse(),
            out@ == all.subrange(0, out@.len() as int).map_values(show),
        decreases rest.len(),
    {
        let ghost k = out@.len() as int;
        let ghost before = rest@;
        let sentence = rest.pop().unwrap();
        proof {
            assert(sentence == before[before.len() - 1]);
            assert(before[before.len() - 1] == all.subrange(k, all.len() as int)[0]);
            assert(sentence == all[k]);
        }
        out.push(SentenceResponse::from(sentence));
        proof {
            assert(rest@ =~= all.subrange(k + 1, all.len() as int).reverse());
            assert(out@ =~= all.subrange(0, k + 1).map_values(show));
        }
    }
    proof {
        assert(all.subrange(0, all.len() as int) =~= all);
    }
    out
}

/// The reply to a request for all sentences, or for those of a chapter.
pub fn get_all_sentences_handler(outcome: Stored<Vec<Sentence>>, at: Timestamp) -> (r: Result<
    Reply<ApiResponse<Vec<SentenceResponse>>>,
    AppError,
>)
    ensures
        match outcome {
            Ok(all) => r matches Ok(reply) && is_success(reply, 200, at) && (
            reply.body.data matches Some(list) && list@ == all@.map_values(|c: Sentence| shown(c))),
            Err(detail) => r matches Err(AppError::Database(d)) && d == detail,
        },
{
    match outcome {
        Ok(all) => listed(Ok(show_all(all)), at),
        Err(detail) => listed(Err(detail), at),
    }
}

/// The reply to a request for the sentences of a chapter.
pub fn get_sentences_by_chapter_handler(outcome: Stored<Vec<Sentence>>, at: Timestamp) -> (r: Result<
    Reply<ApiResponse<Vec<SentenceResponse>>>,
    AppError,
>)
    ensures
        match outcome {
            Ok(all) => r matches Ok(reply) && is_success(reply, 200, at) && (
            reply.body.data matches Some(list) && list@ == all@.map_values(|c: Sentence| shown(c))),
            Err(detail) => r matches Err(AppError::Database(d)) && d == detail,
        },
{
    get_all_sentences_handler(outcome, at)
}

fn show_found(outcome: Stored<Option<Sentence>>) -> (r: Stored<Option<SentenceResponse>>)
    ensures
        match outcome {
            Ok(Some(c)) => r == Ok::<Option<SentenceResponse>, String>(Some(shown(c))),
            Ok(None) => r == Ok::<Option<SentenceResponse>, String>(None),
            Err(detail) => r == Err::<Option<SentenceResponse>, String>(detail),
        },
{
    match outcome {
        Ok(Some(c)) => Ok(Some(SentenceResponse::from(c))),
        Ok(None) => Ok(None),
        Err(detail) => Err(detail),
    }
}

/// The reply to a request for one sentence.
pub fn get_sentence_by_id_handler(outcome: Stored<Option<Sentence>>, at: Timestamp) -> (r: Result<
    Reply<ApiResponse<SentenceResponse>>,
    AppError,
>)
    ensures
        match outcome {
            Ok(Some(c)) => r matches Ok(reply) && is_success(reply, 200, at) && reply.body.data
                == Some(shown(c)),
            Ok(None) => r matches Err(AppError::NotFound),
            Err(detail) => r matches Err(AppError::Database(d)) && d == detail,
        },
{
    found(show_found(outcome), at)
}

/// The reply to a request that adds a sentence. A chapter has each
/// sentence number once; a second one is the caller's mistake.
pub fn create_sentence_handler(outcome: Stored<Sentence>, at: Timestamp) -> (r: Result<
    Reply<ApiResponse<SentenceResponse>>,
    AppError,
>)
    ensures
        match outcome {
            Ok(c) => r matches Ok(reply) && is_success(reply, 201, at) && reply.body.data == Some(
                shown(c),
            ),
            Err(detail) => if is_duplicate(detail@) {
                r matches Err(AppError::Validation(m)) && m@
                    == "Sentence number already exists for this chapter"@
            } else {
                r matches Err(AppError::Database(d)) && d == detail
            },
        },
{
    let outcome = match outcome {
        Ok(c) => Ok(SentenceResponse::from(c)),
        Err(detail) => Err(detail),
    };
    created(outcome, "Sentence number already exists for this chapter", at)
}

/// The reply to a request that changes a sentence.
pub fn update_sentence_handler(outcome: Stored<Option<Sentence>>, at: Timestamp) -> (r: Result<
    Reply<ApiResponse<SentenceResponse>>,
    AppError,
>)
    ensures
        match outcome {
            Ok(Some(c)) => r matches Ok(reply) && is_success(reply, 200, at) && reply.body.data
                == Some(shown(c)),
            Ok(None) => r matches Err(AppError::NotFound),
            Err(detail) => r matches Err(AppError::Database(d)) && d == detail,
        },
{
    found(show_found(outcome), at)
}

/// The reply to a request that removes a sentence.
pub fn delete_sentence_handler(outcome: Stored<bool>, at: Timestamp) -> (r: Result<
    Reply<ApiResponse<String>>,
    AppError,
>)
    ensures
        match outcome {
            Ok(true) => r matches Ok(reply) && is_success(reply, 200, at) && (
            reply.body.data matches Some(m) && m@ == "Sentence deleted successfully"@),
            Ok(false) => r matches Err(AppError::NotFound),
            Err(detail) => r matches Err(AppError::Database(d)) && d == detail,
        },
{
    deleted(outcome, "Sentence deleted successfully", at)
}

} // verus!
