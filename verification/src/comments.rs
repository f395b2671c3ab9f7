//! Comments that users leave.

use crate::auth::validation::{
    errors_of, join_errors, joined, length_is_within, within, FieldError, FieldErrorView,
};
use crate::clock::Timestamp;
use crate::ident::Uuid;
use crate::response::{failure_reply, is_refusal, Outcome, Reply};
use vstd::prelude::*;

verus! {

/// A comment as the store holds it.
#[derive(Debug)]
pub struct Comment {
    pub id: i32,
    pub text: String,
    pub user_id: Uuid,
    pub created_at: Timestamp,
}

/// A comment that is about to be stored.
#[derive(Debug)]
pub struct NewComment {
    pub text: String,
    pub user_id: Uuid,
}

/// The note that confirms a stored comment.
#[derive(Debug)]
pub struct CommentCreated {
    pub message: String,
}

/// What the store said when it was asked to add a comment.
#[derive(Clone, Copy, Debug, PartialEq, Eq, Structural)]
pub enum CommentInsert {
    /// No connection could be had.
    NoConnection,
    /// The comment was added.
    Inserted,
    /// The store refused or failed.
    Failed,
}

/// Greatest number of characters of a comment.
pub const MAX_COMMENT_CHARS: u64 = 200;

/// What is wrong with a comment: its text, unless it has between 1 and
/// 200 characters.
pub open spec fn comment_errors(comment: &NewComment) -> Seq<FieldErrorView> {
    if within(comment.text@.len(), Some(1), Some(MAX_COMMENT_CHARS)) {
        Seq::<FieldErrorView>::empty()
    } else {
        seq![
            FieldErrorView {
                field: "text"@,
                message: "Comment text must be between 1 and 200 characters"@,
            },
        ]
    }
}

impl NewComment {
    /// Checks the comment: the text must have between 1 and 200
    /// characters.
    pub fn validate(&self) -> (r: Result<(), Vec<FieldError>>)
        ensures
            r is Ok <==> comment_errors(self).len() == 0,
            r matches Err(errors) ==> errors_of(errors@) == comment_errors(self),
    {
        if length_is_within(self.text.as_str(), Some(1), Some(MAX_COMMENT_CHARS)) {
            Ok(())
        } else {
            let mut errors: Vec<FieldError> = Vec::new();
            errors.push(
                FieldError {
                    field: "text".to_string(),
                    message: "Comment text must be between 1 and 200 characters".to_string(),
                },
            );
            proof {
                assert(errors_of(errors@) =~= comment_errors(self));
            }
            Err(errors)
        }
    }
}

/// Answers a request that adds a comment. The comment is checked first;
/// an invalid one is answered with 400 whatever `outcome` says, and the
/// store is to be asked only for a comment that `validate` lets pass.
pub fn create_comment_handler(comment: &NewComment, outcome: CommentInsert) -> (r: Reply<
    Outcome<CommentCreated>,
>)
    ensures
        comment_errors(comment).len() > 0 ==> is_refusal(
            r,
            "Validation Error"@,
            joined(comment_errors(comment)),
            400,
        ),
        comment_errors(comment).len() == 0 ==> match outcome {
            CommentInsert::NoConnection => is_refusal(
                r,
                "Database Error"@,
                "Failed to get database connection"@,
                500,
            ),
            CommentInsert::Inserted => r.status == 201 && (r.body matches Outcome::Payload(done)
                && done.message@ == "Comment created successfully"@),
            CommentInsert::Failed => is_refusal(
                r,
                "Database Error"@,
                "Failed to create comment"@,
                500,
            ),
        },
{
    if let Err(errors) = comment.validate() {
        return failure_reply("Validation Error", join_errors(&errors).as_str(), 400);
    }
    match outcome {
        CommentInsert::NoConnection => failure_reply(
            "Database Error",
            "Failed to get database connection",
            500,
        ),
        CommentInsert::Inserted => Reply {
            status: 201,
            body: Outcome::Payload(
                CommentCreated { message: "Comment created successfully".to_string() },
            ),
        },
        CommentInsert::Failed => failure_reply("Database Error", "Failed to create comment", 500),
    }
}

} // verus!
