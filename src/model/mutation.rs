//! The mutations over a post table, at two layers. The data-access functions
//! run one statement each and report a missing row as a response. The
//! API-level functions check the arguments first; a rejected argument stops
//! the mutation before the table is touched.
use vstd::prelude::*;

use super::input::{
    below_minimum_message, check_draft_input, check_post_id, length_violation, valid_body, valid_post_id,
    valid_title, InputViolation, BODY_MAX_LENGTH, BODY_MIN_LENGTH, TITLE_MAX_LENGTH, TITLE_MIN_LENGTH,
};
use super::post::{DeleteDraftResponse, Post, PublishResponse};
use super::table::{PostTable, TableError};

verus! {

/// Why a checked `createDraft` produced no post.
#[derive(Debug, Clone, PartialEq)]
pub enum MutationError {
    /// An argument broke its field rule; nothing was run.
    InvalidInput(InputViolation),
    /// The table refused the statement.
    Table(TableError),
}

/// The table is as it was.
pub open spec fn unchanged(before: PostTable, after: PostTable) -> bool {
    after.rows() == before.rows() && after.last_id() == before.last_id()
}

/// The violation that `createDraft`'s arguments `title` and `body` commit:
/// the title's, else the body's.
pub open spec fn draft_input_violation(title: Seq<char>, body: Seq<char>, v: InputViolation) -> bool {
    if !valid_title(title) {
        length_violation("title"@, title, TITLE_MIN_LENGTH as int, TITLE_MAX_LENGTH as int, Some(v))
    } else {
        length_violation("body"@, body, BODY_MIN_LENGTH as int, BODY_MAX_LENGTH as int, Some(v))
    }
}

/// The violation that a negative `id` argument commits.
pub open spec fn id_violation(id: int, v: InputViolation) -> bool {
    v.field@ == "id"@ && v.message@ == below_minimum_message(id, 0)
}

/// Inserts a draft with `title` and `body` and returns the stored row.
pub fn create_draft_mutation(table: &mut PostTable, title: &str, body: &str) -> (r: Result<Post, TableError>)
    requires
        old(table).wf(),
    ensures
        final(table).wf(),
        PostTable::creates(*old(table), *final(table), title@, body@, r),
{
    table.create_draft(title, body)
}

/// Deletes the draft `id`. Any `id` that no draft has, negative ones
/// included, gets the not-found response.
pub fn delete_draft_mutation(table: &mut PostTable, id: i64) -> (r: DeleteDraftResponse)
    requires
        old(table).wf(),
    ensures
        final(table).wf(),
        PostTable::deletes(*old(table), *final(table), id as int, r),
{
    table.delete_draft(id)
}

/// Publishes the post `id`. Any `id` that no post has, negative ones
/// included, gets the not-found response.
pub fn publish_mutation(table: &mut PostTable, id: i64) -> (r: PublishResponse)
    requires
        old(table).wf(),
    ensures
        final(table).wf(),
        PostTable::publishes(*old(table), *final(table), id as int, r),
{
    table.publish(id)
}

/// `createDraft` as the API takes it: checks the title and body, then inserts.
pub fn checked_create_draft(table: &mut PostTable, title: &str, body: &str) -> (r: Result<Post, MutationError>)
    requires
        old(table).wf(),
    ensures
        final(table).wf(),
        !(valid_title(title@) && valid_body(body@)) ==> match r {
            Err(MutationError::InvalidInput(v)) => draft_input_violation(title@, body@, v)
                && unchanged(*old(table), *final(table)),
            _ => false,
        },
        valid_title(title@) && valid_body(body@) ==> match r {
            Ok(p) => PostTable::creates(*old(table), *final(table), title@, body@, Ok(p)),
            Err(MutationError::Table(e)) => PostTable::creates(*old(table), *final(table), title@, body@, Err(e)),
            Err(MutationError::InvalidInput(_)) => false,
        },
{
    match check_draft_input(title, body) {
        Err(v) => Err(MutationError::InvalidInput(v)),
        Ok(()) => match create_draft_mutation(table, title, body) {
            Ok(p) => Ok(p),
            Err(e) => Err(MutationError::Table(e)),
        },
    }
}

/// `deleteDraft` as the API takes it: rejects a negative `id`, then deletes.
pub fn checked_delete_draft(table: &mut PostTable, id: i64) -> (r: Result<DeleteDraftResponse, InputViolation>)
    requires
        old(table).wf(),
    ensures
        final(table).wf(),
        r is Err <==> !valid_post_id(id as int),
        r is Err ==> id_violation(id as int, r->Err_0) && unchanged(*old(table), *final(table)),
        r is Ok ==> PostTable::deletes(*old(table), *final(table), id as int, r->Ok_0),
{
    match check_post_id(id) {
        Err(v) => Err(v),
        Ok(()) => Ok(delete_draft_mutation(table, id)),
    }
}

/// `publish` as the API takes it: rejects a negative `id`, then publishes.
pub fn checked_publish(table: &mut PostTable, id: i64) -> (r: Result<PublishResponse, InputViolation>)
    requires
        old(table).wf(),
    ensures
        final(table).wf(),
        r is Err <==> !valid_post_id(id as int),
        r is Err ==> id_violation(id as int, r->Err_0) && unchanged(*old(table), *final(table)),
        r is Ok ==> PostTable::publishes(*old(table), *final(table), id as int, r->Ok_0),
{
    match check_post_id(id) {
        Err(v) => Err(v),
        Ok(()) => Ok(publish_mutation(table, id)),
    }
}

} // verus!
