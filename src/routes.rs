//! What the HTTP routes answer: the health check, the greeting, the trace id
//! attached to every API response, and the offline explorer page.
use vstd::prelude::*;

use crate::text::{hex_digits, hex_string_128};

verus! {

/// Status code of a successful response.
pub const STATUS_OK: u16 = 200;
/// Status code of a request that ran out of time.
pub const STATUS_REQUEST_TIMEOUT: u16 = 408;
/// How long a request may run, in seconds.
pub const REQUEST_TIMEOUT_SECS: u64 = 15;

/// Body of the health check.
#[derive(Debug, Clone, Copy, PartialEq, Eq, Structural)]
pub struct Health {
    pub healthy: bool,
}

/// Status and body of the health check.
#[derive(Debug, Clone, Copy, PartialEq, Eq, Structural)]
pub struct HealthResponse {
    pub status: u16,
    pub body: Health,
}

/// The health check: healthy, with status 200, whatever the datastore's state.
pub fn health() -> (r: HealthResponse)
    ensures
        r.status == STATUS_OK,
        r.body.healthy,
{
    HealthResponse { status: STATUS_OK, body: Health { healthy: true } }
}

/// Answer of the `hello` query.
pub fn hello() -> (r: String)
    ensures
        r@ == "Hello everybody!"@,
{
    String::from_str("Hello everybody!")
}

/// The `traceId` extension of an API response: the 128-bit trace id as 32
/// lower-case hexadecimal digits.
pub fn trace_id_text(trace_id: u128) -> (r: String)
    ensures
        r@ == hex_digits(trace_id as nat, 32),
{
    hex_string_128(trace_id)
}

/// With no active trace the trace id is 0, written as zeros only.
pub proof fn lemma_inactive_trace_id_is_zeros(width: nat)
    ensures
        hex_digits(0, width) == Seq::new(width, |_i: int| '0'),
    decreases width,
{
    if width > 0 {
        lemma_inactive_trace_id_is_zeros((width - 1) as nat);
        assert(hex_digits(0, width) =~= Seq::new(width, |_i: int| '0'));
    } else {
        assert(hex_digits(0, width) =~= Seq::new(width, |_i: int| '0'));
    }
}

/// `s` with each match of `from`, left to right and not overlapping, written as `to`.
pub open spec fn replaced(s: Seq<char>, from: Seq<char>, to: Seq<char>) -> Seq<char>
    decreases s.len(),
{
    if from.len() == 0 || s.len() < from.len() {
        s
    } else if s.take(from.len() as int) == from {
        to + replaced(s.skip(from.len() as int), from, to)
    } else {
        seq![s[0]] + replaced(s.skip(1), from, to)
    }
}

/// Relies on `str::replace`: matches of `from` are found left to right
/// without overlap, and each becomes `to`.
#[verifier::external_body]
fn replace_text(s: &str, from: &str, to: &str) -> (r: String)
    requires
        from@.len() > 0,
    ensures
        r@ == replaced(s@, from@, to@),
{
    s.replace(from, to)
}

/// The explorer page that the API library serves for `endpoint`, with
/// subscriptions at `subscription_endpoint`.
pub uninterp spec fn playground_page(endpoint: Seq<char>, subscription_endpoint: Seq<char>) -> Seq<char>;

/// Relies on `async_graphql::http::playground_source`, configured with the
/// two endpoints: the page depends on them alone.
#[verifier::external_body]
fn playground_source_for(endpoint: &str, subscription_endpoint: &str) -> (r: String)
    ensures
        r@ == playground_page(endpoint@, subscription_endpoint@),
{
    async_graphql::http::playground_source(
        async_graphql::http::GraphQLPlaygroundConfig::new(endpoint).subscription_endpoint(subscription_endpoint),
    )
}

/// Where the explorer's scripts and styles are fetched from by default.
pub open spec fn cdn_assets() -> Seq<char> {
    "//cdn.jsdelivr.net/npm/graphql-playground-react/build"@
}

/// Where the explorer's fonts are fetched from by default.
pub open spec fn cdn_fonts() -> Seq<char> {
    "https://fonts.googleapis.com/css"@
}

/// `page` with its remote asset references pointing at the local `/assets` directory.
pub open spec fn localised(page: Seq<char>) -> Seq<char> {
    replaced(replaced(page, cdn_assets(), "/assets"@), cdn_fonts(), "/assets/fonts/fonts.css"@)
}

/// Rewrites the remote asset references of an explorer page to the locally
/// served copies, so that the page works offline.
pub fn localise_playground_assets(page: &str) -> (r: String)
    ensures
        r@ == localised(page@),
{
    proof {
        reveal_strlit("//cdn.jsdelivr.net/npm/graphql-playground-react/build");
        reveal_strlit("https://fonts.googleapis.com/css");
    }
    let scripts = replace_text(page, "//cdn.jsdelivr.net/npm/graphql-playground-react/build", "/assets");
    replace_text(scripts.as_str(), "https://fonts.googleapis.com/css", "/assets/fonts/fonts.css")
}

/// The explorer page for the API at `/`, with subscriptions at `/ws`, served
/// with local assets.
pub fn graphql_playground() -> (r: String)
    ensures
        r@ == localised(playground_page("/"@, "/ws"@)),
{
    let page = playground_source_for("/", "/ws");
    localise_playground_assets(page.as_str())
}

} // verus!
