//! Classics: the books of the library.

use crate::clock::Timestamp;
use crate::content::outcome::{enveloped, enveloped_deleted, enveloped_found, Stored};
use crate::ident::Uuid;
use crate::response::{error_reply, is_failure, is_success, ApiResponse, Reply};
use crate::text::chars_of;
use vstd::prelude::*;

verus! {

/// A classic as the store holds it.
#[derive(Debug)]
pub struct Classic {
    pub id: Uuid,
    pub slug: String,
    pub title: String,
    pub author: Option<String>,
    pub dynasty: Option<String>,
    pub description: Option<String>,
    pub created_at: Timestamp,
    pub updated_at: Timestamp,
}

/// What is needed to add a classic.
#[derive(Debug)]
pub struct CreateClassicRequest {
    pub slug: String,
    pub title: String,
    pub author: Option<String>,
    pub dynasty: Option<String>,
    pub description: Option<String>,
}

/// What may be changed of a classic; an absent field stays as it is.
#[derive(Debug)]
pub struct UpdateClassicRequest {
    pub title: Option<String>,
    pub author: Option<String>,
    pub dynasty: Option<String>,
    pub description: Option<String>,
}

/// Whether `c` is a letter or a digit in the sense of Unicode, as
/// `char::is_alphanumeric` of the standard library tells.
pub uninterp spec fn alphanumeric(c: char) -> bool;

/// `char::is_alphanumeric` of the standard library.
///
/// Trusted: the result is what `alphanumeric` names.
#[verifier::external_body]
fn is_alphanumeric(c: char) -> (r: bool)
    ensures
        r == alphanumeric(c),
{
    c.is_alphanumeric()
}

/// A slug holds letters, digits and hyphens only.
pub open spec fn valid_slug(slug: Seq<char>) -> bool {
    forall|i: int| 0 <= i < slug.len() ==> alphanumeric(#[trigger] slug[i]) || slug[i] == '-'
}

/// Whether `slug` holds letters, digits and hyphens only.
pub fn is_valid_slug(slug: &str) -> (r: bool)
    ensures
        r == valid_slug(slug@),
{
    let chars = chars_of(slug);
    let mut i: usize = 0;
    while i < chars.len()
        invariant
            chars@ == slug@,
            i <= chars.len(),
            forall|k: int| 0 <= k < i ==> alphanumeric(#[trigger] slug@[k]) || slug@[k] == '-',
        decreases chars.len() - i,
    {
        let c = chars[i];
        if !(is_alphanumeric(c) || c == '-') {
            return false;
        }
        i = i + 1;
    }
    true
}

impl Classic {
    /// The classic that a request becomes once it has been given an
    /// identity and the time of its creation.
    pub fn from_request(req: CreateClassicRequest, id: Uuid, at: Timestamp) -> (r: Classic)
        ensures
            r.id == id,
            r.slug == req.slug,
            r.title == req.title,
            r.author == req.author,
            r.dynasty == req.dynasty,
            r.description == req.description,
            r.created_at == at,
            r.updated_at == at,
    {
        Classic {
            id,
            slug: req.slug,
            title: req.title,
            author: req.author,
            dynasty: req.dynasty,
            description: req.description,
            created_at: at,
            updated_at: at,
        }
    }
}

impl CreateClassicRequest {
    /// A request is complete when neither title nor slug is empty.
    pub open spec fn complete(&self) -> bool {
        self.title@.len() > 0 && self.slug@.len() > 0
    }

    /// Whether neither title nor slug is empty.
    pub fn is_complete(&self) -> (r: bool)
        ensures
            r == self.complete(),
    {
        !(self.title.as_str().is_empty() || self.slug.as_str().is_empty())
    }
}

/// The reply to a request for all classics.
pub fn list_classics_handler(outcome: Stored<Vec<Classic>>, at: Timestamp) -> (r: Reply<
    ApiResponse<Vec<Classic>>,
>)
    ensures
        r.body.wf(),
        match outcome {
            Ok(all) => is_success(r, 200, at) && r.body.data == Some(all),
            Err(_) => is_failure(r, 500, "获取经典列表失败"@, at),
        },
{
    enveloped(outcome, 200, "获取经典列表失败", at)
}

/// The reply to a request for the classic with a slug that is no slug.
pub fn reject_slug(slug: &str, at: Timestamp) -> (r: Option<Reply<ApiResponse<Classic>>>)
    ensures
        r is Some <==> !valid_slug(slug@),
        r matches Some(reply) ==> is_failure(reply, 400, "无效的经典标识符"@, at),
{
    if is_valid_slug(slug) {
        None
    } else {
        Some(error_reply(400, "无效的经典标识符", at))
    }
}

/// The reply to a request for the classic with a given slug. A slug
/// that is no slug is answered with 400, whatever `outcome` says: the
/// store is to be asked only for a slug that `reject_slug` lets pass.
pub fn get_classic_handler(slug: &str, outcome: Stored<Option<Classic>>, at: Timestamp) -> (r: Reply<
    ApiResponse<Classic>,
>)
    ensures
        r.body.wf(),
        !valid_slug(slug@) ==> is_failure(r, 400, "无效的经典标识符"@, at),
        valid_slug(slug@) ==> match outcome {
            Ok(Some(classic)) => is_success(r, 200, at) && r.body.data == Some(classic),
            Ok(None) => is_failure(r, 404, "经典未找到"@, at),
            Err(_) => is_failure(r, 500, "获取经典详情失败"@, at),
        },
{
    if !is_valid_slug(slug) {
        return error_reply(400, "无效的经典标识符", at);
    }
    enveloped_found(outcome, "经典未找到", "获取经典详情失败", at)
}

/// Where the creation of a classic stands.
#[derive(Clone, Copy, Debug, PartialEq, Eq, Structural)]
pub enum CreateClassicState {
    /// The request has arrived.
    Received,
    /// The store has been asked whether the slug is taken.
    SlugAsked,
    /// The store has been asked to add the classic.
    CreateAsked,
    /// The reply has been handed out.
    Finished,
}

/// What happened since the last step of a creation.
pub enum CreateClassicEvent {
    /// The request arrived.
    Request(CreateClassicRequest),
    /// The store told whether a classic with the slug exists.
    SlugLookup(Stored<bool>),
    /// The store added the classic, or failed to.
    Created(Stored<Classic>),
}

/// What is to be done next in a creation.
pub enum CreateClassicAction {
    /// Ask the store whether a classic with the slug of the request exists.
    FindBySlug(CreateClassicRequest),
    /// Ask the store to add the classic of the request.
    Create,
    /// Send the reply.
    Respond(Reply<ApiResponse<Classic>>),
    /// The event does not belong to the state; the creation is abandoned.
    Reject,
}

/// What one step of a creation leads to, as far as the reply goes.
pub open spec fn create_classic_reply(
    state: CreateClassicState,
    event: CreateClassicEvent,
    at: Timestamp,
    reply: Reply<ApiResponse<Classic>>,
) -> bool {
    match (state, event) {
        (CreateClassicState::Received, CreateClassicEvent::Request(_)) => is_failure(
            reply,
            400,
            "标题和标识符不能为空"@,
            at,
        ),
        (CreateClassicState::SlugAsked, CreateClassicEvent::SlugLookup(Ok(true))) => is_failure(
            reply,
            409,
            "该标识符已存在"@,
            at,
        ),
        (CreateClassicState::SlugAsked, CreateClassicEvent::SlugLookup(Err(_))) => is_failure(
            reply,
            500,
            "创建经典失败"@,
            at,
        ),
        (CreateClassicState::CreateAsked, CreateClassicEvent::Created(Ok(classic))) => is_success(
            reply,
            201,
            at,
        ) && reply.body.data == Some(classic),
        (CreateClassicState::CreateAsked, CreateClassicEvent::Created(Err(_))) => is_failure(
            reply,
            500,
            "创建经典失败"@,
            at,
        ),
        _ => false,
    }
}

/// Takes one step in the creation of a classic: an incomplete request is
/// answered with 400 at once; a complete one has the slug looked up; a
/// taken slug is answered with 409; a free one has the classic added,
/// which is answered with 201. A failure of the store at either point is
/// answered with 500.
pub fn create_classic_handler(state: CreateClassicState, event: CreateClassicEvent, at: Timestamp) -> (r:
    (CreateClassicState, CreateClassicAction))
    ensures
        match (state, event) {
            (CreateClassicState::Received, CreateClassicEvent::Request(req)) => if req.complete() {
                r.0 == CreateClassicState::SlugAsked && r.1 == CreateClassicAction::FindBySlug(req)
            } else {
                r.0 == CreateClassicState::Finished && (r.1 matches CreateClassicAction::Respond(
                    reply,
                ) && create_classic_reply(state, event, at, reply))
            },
            (
                CreateClassicState::SlugAsked,
                CreateClassicEvent::SlugLookup(Ok(false)),
            ) => r.0 == CreateClassicState::CreateAsked && r.1 is Create,
            (CreateClassicState::SlugAsked, CreateClassicEvent::SlugLookup(_)) => r.0
                == CreateClassicState::Finished && (r.1 matches CreateClassicAction::Respond(reply)
                && create_classic_reply(state, event, at, reply)),
            (CreateClassicState::CreateAsked, CreateClassicEvent::Created(_)) => r.0
                == CreateClassicState::Finished && (r.1 matches CreateClassicAction::Respond(reply)
                && create_classic_reply(state, event, at, reply)),
            _ => r.0 == CreateClassicState::Finished && r.1 is Reject,
        },
{
    match state {
        CreateClassicState::Received => match event {
            CreateClassicEvent::Request(req) => {
                if req.is_complete() {
                    (CreateClassicState::SlugAsked, CreateClassicAction::FindBySlug(req))
                } else {
                    (
                        CreateClassicState::Finished,
                        CreateClassicAction::Respond(error_reply(400, "标题和标识符不能为空", at)),
                    )
                }
            },
            _ => (CreateClassicState::Finished, CreateClassicAction::Reject),
        },
        CreateClassicState::SlugAsked => match event {
            CreateClassicEvent::SlugLookup(Ok(false)) => (
                CreateClassicState::CreateAsked,
                CreateClassicAction::Create,
            ),
            CreateClassicEvent::SlugLookup(Ok(true)) => (
                CreateClassicState::Finished,
                CreateClassicAction::Respond(error_reply(409, "该标识符已存在", at)),
            ),
            CreateClassicEvent::SlugLookup(Err(_)) => (
                CreateClassicState::Finished,
                CreateClassicAction::Respond(error_reply(500, "创建经典失败", at)),
            ),
            _ => (CreateClassicState::Finished, CreateClassicAction::Reject),
        },
        CreateClassicState::CreateAsked => match event {
            CreateClassicEvent::Created(outcome) => (
                CreateClassicState::Finished,
                CreateClassicAction::Respond(enveloped(outcome, 201, "创建经典失败", at)),
            ),
            _ => (CreateClassicState::Finished, CreateClassicAction::Reject),
        },
        CreateClassicState::Finished => (CreateClassicState::Finished, CreateClassicAction::Reject),
    }
}

/// The reply to a request that changes a classic.
pub fn update_classic_handler(outcome: Stored<Option<Classic>>, at: Timestamp) -> (r: Reply<
    ApiResponse<Classic>,
>)
    ensures
        r.body.wf(),
        match outcome {
            Ok(Some(classic)) => is_success(r, 200, at) && r.body.data == Some(classic),
            Ok(None) => is_failure(r, 404, "经典未找到"@, at),
            Err(_) => is_failure(r, 500, "更新经典失败"@, at),
        },
{
    enveloped_found(outcome, "经典未找到", "更新经典失败", at)
}

/// The reply to a request that removes a classic.
pub fn delete_classic_handler(outcome: Stored<bool>, at: Timestamp) -> (r: Reply<ApiResponse<String>>)
    ensures
        r.body.wf(),
        match outcome {
            Ok(true) => is_success(r, 200, at) && (r.body.data matches Some(m) && m@
                == "经典删除成功"@),
            Ok(false) => is_failure(r, 404, "经典未找到"@, at),
            Err(_) => is_failure(r, 500, "删除经典失败"@, at),
        },
{
    enveloped_deleted(outcome, "经典删除成功", "经典未找到", "删除经典失败", at)
}

} // verus!
