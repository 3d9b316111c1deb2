use axum_graphql::model::post::{
    DeleteDraftErrorResponse, DeleteDraftResponse, DeleteDraftSuccessResponse, Post,
    PublishErrorResponse, PublishResponse, PublishSuccessResponse, UserInputError,
};
use axum_graphql::model::table::{PostTable, LIST_LIMIT};

fn not_found(id: &str) -> UserInputError {
    UserInputError {
        field: String::from("id"),
        message: format!("Did not find draft post with id `{id}`"),
        received: String::from(id),
    }
}

#[test]
fn posts_query_returns_expected_output_with_no_posts() {
    let table = PostTable::new();
    assert_eq!(table.posts(), Vec::<Post>::new());
}

#[test]
fn posts_return_empty_array_when_no_posts_exist() {
    let mut table = PostTable::new();
    table.create_draft("Draft title", "Draft body text").unwrap();
    assert_eq!(table.posts(), Vec::<Post>::new());
}

#[test]
fn drafts_empty_when_no_drafts_exist() {
    let mut table = PostTable::new();
    assert_eq!(table.drafts(), Vec::<Post>::new());
    let post = table.create_draft("Draft title", "Draft body text").unwrap();
    table.publish(post.id);
    assert_eq!(table.drafts(), Vec::<Post>::new());
}

#[test]
fn posts_query_returns_expected_output_with_posts() {
    let mut table = PostTable::new();
    let title = String::from("New Post Title");
    let body = String::from("# New Post\nNew post body");
    let Post { id, .. } = table.create_draft(&title, &body).unwrap();
    let _ = table.publish(id);

    assert_eq!(table.posts(), vec![Post { id, title, body, published: true }]);
}

#[test]
fn delete_draft_mutation_returns_error_message_if_draft_does_not_exist() {
    let mut table = PostTable::new();
    let Post { id, .. } = table.create_draft("New Post Title", "# New Post\nNew post body").unwrap();
    let _ = table.publish(id);

    let outcome = table.delete_draft(999);

    assert_eq!(
        outcome,
        DeleteDraftResponse::DeleteDraftErrorResponse(DeleteDraftErrorResponse {
            error: not_found("999")
        })
    );
}

#[test]
fn delete_draft_mutation_returns_draft_on_valid_input() {
    let mut table = PostTable::new();
    let title = String::from("New Post Title");
    let body = String::from("# New Post\nNew post body");
    let Post { id, .. } = table.create_draft(&title, &body).unwrap();

    let outcome = table.delete_draft(id);

    assert_eq!(
        outcome,
        DeleteDraftResponse::DeleteDraftSuccessResponse(DeleteDraftSuccessResponse {
            post: Post { id, title, body, published: false },
        })
    );
    assert_eq!(table.drafts(), Vec::<Post>::new());
}

fn three_drafts(table: &mut PostTable) -> (i64, i64, i64) {
    let a = table.create_draft("First Post Title", "First post body.").unwrap().id;
    let b = table.create_draft("Second Post Title", "Second post body.").unwrap().id;
    let c = table.create_draft("Third Post Title", "Third post body.").unwrap().id;
    (a, b, c)
}

#[test]
fn posts_returns_existing_posts() {
    let mut table = PostTable::new();
    let (id_1, _id_2, id_3) = three_drafts(&mut table);
    table.publish(id_1);
    table.publish(id_3);

    let posts: Vec<(i64, String)> = table.posts().into_iter().map(|p| (p.id, p.title)).collect();
    assert_eq!(
        posts,
        vec![(id_1, String::from("First Post Title")), (id_3, String::from("Third Post Title"))]
    );
}

#[test]
fn publish_returns_user_error_for_invalid_id() {
    let mut table = PostTable::new();
    assert_eq!(
        table.publish(9_999),
        PublishResponse::PublishErrorResponse(PublishErrorResponse { error: not_found("9999") })
    );
}

#[test]
fn publish_returns_user_expected_result_for_valid_input() {
    let mut table = PostTable::new();
    let (_id_1, id_2, _id_3) = three_drafts(&mut table);
    match table.publish(id_2) {
        PublishResponse::PublishSuccessResponse(PublishSuccessResponse { post }) => {
            assert_eq!(post.id, id_2);
            assert!(post.published);
        }
        other => panic!("expected success, got {other:?}"),
    }
}

#[test]
fn delete_draft_returns_user_error_for_invalid_id() {
    let mut table = PostTable::new();
    assert_eq!(
        table.delete_draft(9_999),
        DeleteDraftResponse::DeleteDraftErrorResponse(DeleteDraftErrorResponse {
            error: not_found("9999")
        })
    );
}

#[test]
fn delete_draft_returns_user_expected_result_for_valid_input() {
    let mut table = PostTable::new();
    let (_id_1, id_2, _id_3) = three_drafts(&mut table);
    match table.delete_draft(id_2) {
        DeleteDraftResponse::DeleteDraftSuccessResponse(DeleteDraftSuccessResponse { post }) => {
            assert_eq!(post.title, "Second Post Title");
        }
        other => panic!("expected success, got {other:?}"),
    }
    let titles: Vec<String> = table.drafts().into_iter().map(|p| p.title).collect();
    assert_eq!(titles, vec!["First Post Title", "Third Post Title"]);
}

#[test]
fn graphql_endpoint_responds_to_drafts_query() {
    let mut table = PostTable::new();
    assert_eq!(table.drafts(), Vec::<Post>::new());

    let created = table.create_draft("Draft title", "Draft body text").unwrap();
    let drafts: Vec<(i64, String)> = table.drafts().into_iter().map(|p| (p.id, p.title)).collect();
    assert_eq!(drafts, vec![(1, String::from("Draft title"))]);

    table.publish(created.id);
    let posts: Vec<(i64, bool)> = table.posts().into_iter().map(|p| (p.id, p.published)).collect();
    assert_eq!(posts, vec![(1, true)]);
    assert_eq!(table.drafts(), Vec::<Post>::new());
}

#[test]
fn created_draft_appears_once_with_fresh_id() {
    let mut table = PostTable::new();
    let (a, b, c) = three_drafts(&mut table);
    let before = table.drafts();
    let created = table.create_draft("Fresh title", "Fresh body").unwrap();
    let after = table.drafts();
    assert_eq!(after.len(), before.len() + 1);
    assert_eq!(&after[..before.len()], &before[..]);
    assert_eq!(after[before.len()], created);
    assert_eq!(created.title, "Fresh title");
    assert_eq!(created.body, "Fresh body");
    assert!(!created.published);
    assert!(created.id != a && created.id != b && created.id != c);
}

#[test]
fn deleted_id_is_never_reused() {
    let mut table = PostTable::new();
    let (_a, _b, c) = three_drafts(&mut table);
    table.delete_draft(c);
    let next = table.create_draft("Another title", "Another body").unwrap();
    assert_eq!(next.id, 4);
    assert!(table.drafts().iter().all(|p| p.id != c));
    assert!(matches!(table.delete_draft(c), DeleteDraftResponse::DeleteDraftErrorResponse(_)));
}

#[test]
fn published_post_is_not_deleted() {
    let mut table = PostTable::new();
    let post = table.create_draft("Keep me", "Published body").unwrap();
    table.publish(post.id);
    assert_eq!(
        table.delete_draft(post.id),
        DeleteDraftResponse::DeleteDraftErrorResponse(DeleteDraftErrorResponse {
            error: not_found("1")
        })
    );
    assert_eq!(table.posts().len(), 1);
}

#[test]
fn publish_is_accepted_on_a_published_post() {
    let mut table = PostTable::new();
    let post = table.create_draft("Twice", "Published twice").unwrap();
    table.publish(post.id);
    let again = table.publish(post.id);
    assert!(matches!(again, PublishResponse::PublishSuccessResponse(_)));
    assert_eq!(table.posts().len(), 1);
}

#[test]
fn listings_stop_at_the_limit() {
    let mut table = PostTable::new();
    for i in 0..(LIST_LIMIT + 5) {
        table.create_draft(&format!("Title {i}"), "Some body").unwrap();
    }
    let drafts = table.drafts();
    assert_eq!(drafts.len(), LIST_LIMIT);
    assert_eq!(drafts[0].id, 1);
    assert_eq!(drafts[LIST_LIMIT - 1].id, LIST_LIMIT as i64);
}
