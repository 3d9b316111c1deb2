use axum_graphql::database::{creation_step, DatabaseStep};

#[test]
fn create_does_not_panic_if_database_already_exists() {
    assert_eq!(creation_step(Some(true)), DatabaseStep::UseExisting);
}

#[test]
fn missing_or_unknown_database_is_created() {
    assert_eq!(creation_step(Some(false)), DatabaseStep::Create);
    assert_eq!(creation_step(None), DatabaseStep::Create);
}
