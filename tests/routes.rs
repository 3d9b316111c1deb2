use axum_graphql::routes::{
    graphql_playground, health, hello, localise_playground_assets, trace_id_text, STATUS_OK,
};

#[test]
fn health_check_returns_expected_json_response_with_200_ok() {
    let response = health();
    assert_eq!(response.status, STATUS_OK);
    assert_eq!(response.status, 200);
    assert!(response.body.healthy);
}

#[test]
fn graphql_endpoint_responds_to_hello_query() {
    assert_eq!(hello(), "Hello everybody!");
    assert_eq!(trace_id_text(0), "00000000000000000000000000000000");
}

#[test]
fn trace_id_is_lower_hex() {
    assert_eq!(
        trace_id_text(0x4bf92f3577b34da6a3ce929d0e0e4736),
        "4bf92f3577b34da6a3ce929d0e0e4736"
    );
}

#[test]
fn playground_assets_are_local() {
    let page = graphql_playground();
    assert!(page.contains("<html>") || page.contains("<!DOCTYPE html>"));
    assert!(!page.contains("//cdn.jsdelivr.net/npm/graphql-playground-react/build"));
    assert!(!page.contains("https://fonts.googleapis.com/css"));
    assert!(page.contains("/assets"));
}

#[test]
fn asset_references_are_rewritten() {
    let page = "<link href=\"https://fonts.googleapis.com/css?x\"><script src=\"//cdn.jsdelivr.net/npm/graphql-playground-react/build/app.js\"></script>";
    assert_eq!(
        localise_playground_assets(page),
        "<link href=\"/assets/fonts/fonts.css?x\"><script src=\"/assets/app.js\"></script>"
    );
    assert_eq!(localise_playground_assets("plain"), "plain");
}
