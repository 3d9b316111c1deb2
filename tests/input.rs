use axum_graphql::model::input::{check_draft_input, check_post_id, InputViolation};

fn violation(field: &str, message: &str) -> InputViolation {
    InputViolation { field: String::from(field), message: String::from(message) }
}

#[test]
fn valid_draft_input_is_accepted() {
    assert_eq!(check_draft_input("abc", "xyz"), Ok(()));
    assert_eq!(check_draft_input(&"t".repeat(64), &"b".repeat(64_000)), Ok(()));
}

#[test]
fn short_title_is_rejected() {
    assert_eq!(
        check_draft_input("ab", "Draft body text"),
        Err(violation("title", "the string length is 2, must be greater than or equal to 3"))
    );
}

#[test]
fn long_title_is_rejected() {
    assert_eq!(
        check_draft_input(&"t".repeat(65), "Draft body text"),
        Err(violation("title", "the string length is 65, must be less than or equal to 64"))
    );
}

#[test]
fn title_length_counts_characters() {
    assert_eq!(check_draft_input("éé", "Draft body text").unwrap_err().field, "title");
    assert_eq!(check_draft_input("ééé", "Draft body text"), Ok(()));
}

#[test]
fn short_and_long_bodies_are_rejected() {
    assert_eq!(
        check_draft_input("Draft title", ""),
        Err(violation("body", "the string length is 0, must be greater than or equal to 3"))
    );
    assert_eq!(
        check_draft_input("Draft title", &"b".repeat(64_001)),
        Err(violation("body", "the string length is 64001, must be less than or equal to 64000"))
    );
}

#[test]
fn negative_id_is_rejected() {
    assert_eq!(check_post_id(0), Ok(()));
    assert_eq!(check_post_id(12), Ok(()));
    assert_eq!(
        check_post_id(-1),
        Err(violation("id", "the value is -1, must be greater than or equal to 0"))
    );
}
