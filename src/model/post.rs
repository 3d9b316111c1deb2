//! The `Post` record and the tagged responses of the delete and publish
//! mutations.
use vstd::prelude::*;

use crate::text::{decimal_string, decimal_text};

verus! {

/// A blog post: a draft while `published` is false.
#[derive(Debug, Clone, PartialEq)]
pub struct Post {
    pub id: i64,
    pub title: String,
    pub body: String,
    pub published: bool,
}

/// What a post holds, as values.
pub struct PostView {
    pub id: int,
    pub title: Seq<char>,
    pub body: Seq<char>,
    pub published: bool,
}

impl View for Post {
    type V = PostView;

    open spec fn view(&self) -> PostView {
        PostView { id: self.id as int, title: self.title@, body: self.body@, published: self.published }
    }
}

impl Post {
    /// A field-for-field copy of the post.
    pub fn copied(&self) -> (r: Post)
        ensures
            r == *self,
            r@ == self@,
    {
        Post { id: self.id, title: self.title.clone(), body: self.body.clone(), published: self.published }
    }
}

/// Detail of a user input error.
#[derive(Debug, Clone, PartialEq)]
pub struct UserInputError {
    /// Field which had the invalid data
    pub field: String,
    /// Error description
    pub message: String,
    /// Input value for field
    pub received: String,
}

/// The message given when no draft post has the identifier `id`.
pub open spec fn not_found_message(id: int) -> Seq<char> {
    "Did not find draft post with id `"@ + decimal_text(id) + "`"@
}

impl UserInputError {
    /// Whether this error reports that no draft post has the identifier `id`.
    pub open spec fn reports_missing_draft(&self, id: int) -> bool {
        &&& self.field@ == "id"@
        &&& self.message@ == not_found_message(id)
        &&& self.received@ == decimal_text(id)
    }
}

/// The error reported when no draft post has the identifier `id`.
pub fn draft_not_found_error(id: i64) -> (r: UserInputError)
    ensures
        r.reports_missing_draft(id as int),
{
    let mut message = String::from_str("Did not find draft post with id `");
    message.append(decimal_string(id).as_str());
    message.append("`");
    UserInputError { field: String::from_str("id"), message, received: decimal_string(id) }
}

/// Errors found while parsing or validating input parameters.
#[derive(Debug, Clone, PartialEq)]
pub enum ValidationError {
    /// User input error, such as asking for an operation on a post with an `id` that does
    /// not exist
    UserInputError(UserInputError),
}

impl ValidationError {
    /// The description carried by the error.
    pub fn message(&self) -> (r: String)
        ensures
            match self {
                ValidationError::UserInputError(e) => r@ == e.message@,
            },
    {
        match self {
            ValidationError::UserInputError(e) => e.message.clone(),
        }
    }
}

/// Response sent on a delete draft mutation that removed a draft.
#[derive(Debug, Clone, PartialEq)]
pub struct DeleteDraftSuccessResponse {
    pub post: Post,
}

/// Response sent on a delete draft mutation that found no draft to remove.
#[derive(Debug, Clone, PartialEq)]
pub struct DeleteDraftErrorResponse {
    pub error: UserInputError,
}

/// Outcome of a delete draft mutation.
#[derive(Debug, Clone, PartialEq)]
pub enum DeleteDraftResponse {
    DeleteDraftSuccessResponse(DeleteDraftSuccessResponse),
    DeleteDraftErrorResponse(DeleteDraftErrorResponse),
}

/// Response sent on a publish mutation that updated a post.
#[derive(Debug, Clone, PartialEq)]
pub struct PublishSuccessResponse {
    /// Published post
    pub post: Post,
}

/// Response sent on a publish mutation that found no post.
#[derive(Debug, Clone, PartialEq)]
pub struct PublishErrorResponse {
    /// User input error details
    pub error: UserInputError,
}

/// Outcome of a publish mutation.
#[derive(Debug, Clone, PartialEq)]
pub enum PublishResponse {
    PublishSuccessResponse(PublishSuccessResponse),
    PublishErrorResponse(PublishErrorResponse),
}

impl DeleteDraftResponse {
    /// The response that reports `deleted`, the row that the delete statement
    /// removed, if any, for the requested `id`.
    pub open spec fn reports(self, id: int, deleted: Option<Post>) -> bool {
        match deleted {
            Some(p) => self == DeleteDraftResponse::DeleteDraftSuccessResponse(
                DeleteDraftSuccessResponse { post: p },
            ),
            None => match self {
                DeleteDraftResponse::DeleteDraftErrorResponse(e) => e.error.reports_missing_draft(id),
                _ => false,
            },
        }
    }
}

impl PublishResponse {
    /// The response that reports `updated`, the row that the publish statement
    /// changed, if any, for the requested `id`.
    pub open spec fn reports(self, id: int, updated: Option<Post>) -> bool {
        match updated {
            Some(p) => self == PublishResponse::PublishSuccessResponse(
                PublishSuccessResponse { post: p },
            ),
            None => match self {
                PublishResponse::PublishErrorResponse(e) => e.error.reports_missing_draft(id),
                _ => false,
            },
        }
    }
}

/// Builds the response of a delete draft mutation for `id` from the row that
/// the delete statement returned.
pub fn delete_draft_response(id: i64, deleted: Option<Post>) -> (r: DeleteDraftResponse)
    ensures
        r.reports(id as int, deleted),
{
    match deleted {
        Some(post) => DeleteDraftResponse::DeleteDraftSuccessResponse(
            DeleteDraftSuccessResponse { post },
        ),
        None => DeleteDraftResponse::DeleteDraftErrorResponse(
            DeleteDraftErrorResponse { error: draft_not_found_error(id) },
        ),
    }
}

/// Builds the response of a publish mutation for `id` from the row that the
/// update statement returned.
pub fn publish_response(id: i64, updated: Option<Post>) -> (r: PublishResponse)
    ensures
        r.reports(id as int, updated),
{
    match updated {
        Some(post) => PublishResponse::PublishSuccessResponse(PublishSuccessResponse { post }),
        None => PublishResponse::PublishErrorResponse(
            PublishErrorResponse { error: draft_not_found_error(id) },
        ),
    }
}

} // verus!
