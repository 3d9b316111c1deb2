use axum_graphql::model::input::InputViolation;
use axum_graphql::model::mutation::{
    checked_create_draft, checked_delete_draft, checked_publish, create_draft_mutation,
    delete_draft_mutation, publish_mutation, MutationError,
};
use axum_graphql::model::post::{
    DeleteDraftErrorResponse, DeleteDraftResponse, PublishErrorResponse, PublishResponse,
    UserInputError,
};
use axum_graphql::model::table::PostTable;

fn not_found(id: &str) -> UserInputError {
    UserInputError {
        field: String::from("id"),
        message: format!("Did not find draft post with id `{id}`"),
        received: String::from(id),
    }
}

#[test]
fn invalid_title_stops_before_insert() {
    let mut table = PostTable::new();
    let outcome = checked_create_draft(&mut table, "ab", "Draft body text");
    assert_eq!(
        outcome,
        Err(MutationError::InvalidInput(InputViolation {
            field: String::from("title"),
            message: String::from("the string length is 2, must be greater than or equal to 3"),
        }))
    );
    assert!(table.drafts().is_empty());
}

#[test]
fn invalid_body_stops_before_insert() {
    let mut table = PostTable::new();
    let outcome = checked_create_draft(&mut table, "Draft title", "ab");
    assert_eq!(
        outcome,
        Err(MutationError::InvalidInput(InputViolation {
            field: String::from("body"),
            message: String::from("the string length is 2, must be greater than or equal to 3"),
        }))
    );
    assert!(table.drafts().is_empty());
}

#[test]
fn valid_draft_is_created() {
    let mut table = PostTable::new();
    let post = checked_create_draft(&mut table, "Draft title", "Draft body text").unwrap();
    assert_eq!(post.id, 1);
    assert_eq!(table.drafts(), vec![post]);
}

#[test]
fn data_access_create_does_not_check_lengths() {
    let mut table = PostTable::new();
    let post = create_draft_mutation(&mut table, "a", "b").unwrap();
    assert_eq!(post.title, "a");
    assert_eq!(table.drafts(), vec![post]);
}

#[test]
fn negative_id_is_a_validation_error_at_the_api() {
    let mut table = PostTable::new();
    let post = checked_create_draft(&mut table, "Draft title", "Draft body text").unwrap();
    let rejected = checked_publish(&mut table, -1).unwrap_err();
    assert_eq!(rejected.field, "id");
    assert_eq!(rejected.message, "the value is -1, must be greater than or equal to 0");
    let rejected = checked_delete_draft(&mut table, -5).unwrap_err();
    assert_eq!(rejected.message, "the value is -5, must be greater than or equal to 0");
    assert_eq!(table.drafts(), vec![post]);
}

#[test]
fn negative_id_is_not_found_at_data_access() {
    let mut table = PostTable::new();
    let post = create_draft_mutation(&mut table, "Draft title", "Draft body text").unwrap();
    assert_eq!(
        publish_mutation(&mut table, -1),
        PublishResponse::PublishErrorResponse(PublishErrorResponse { error: not_found("-1") })
    );
    assert_eq!(
        delete_draft_mutation(&mut table, -1),
        DeleteDraftResponse::DeleteDraftErrorResponse(DeleteDraftErrorResponse {
            error: not_found("-1")
        })
    );
    assert_eq!(table.drafts(), vec![post]);
}

#[test]
fn missing_post_is_a_response() {
    let mut table = PostTable::new();
    assert!(matches!(
        checked_publish(&mut table, 7),
        Ok(PublishResponse::PublishErrorResponse(_))
    ));
    assert!(matches!(
        checked_delete_draft(&mut table, 7),
        Ok(DeleteDraftResponse::DeleteDraftErrorResponse(_))
    ));
}
