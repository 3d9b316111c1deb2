//! Labels and buckets of the per-request metrics.
use vstd::prelude::*;

use crate::text::{decimal_string, decimal_text};

verus! {

/// Upper bounds of the request-duration histogram buckets, in milliseconds:
/// exponential steps from 5 ms to 10 s.
pub fn histogram_boundaries_millis() -> (r: Vec<u64>)
    ensures
        r@ == seq![5u64, 10, 25, 50, 100, 250, 500, 1000, 2500, 5000, 10000],
{
    let r = vec![5u64, 10, 25, 50, 100, 250, 500, 1000, 2500, 5000, 10000];
    assert(r@ =~= seq![5u64, 10, 25, 50, 100, 250, 500, 1000, 2500, 5000, 10000]);
    r
}

/// The labels that a request's counter and histogram entries carry.
#[derive(Debug, Clone, PartialEq)]
pub struct RequestLabels {
    pub method: String,
    pub path: String,
    pub status: String,
}

/// Labels for a request: its method, the route it matched (or its raw path
/// when it matched none) and its response status code in decimal.
pub fn request_labels(method: &str, matched_path: Option<&str>, uri_path: &str, status: u16) -> (r: RequestLabels)
    ensures
        r.method@ == method@,
        r.path@ == match matched_path {
            Some(m) => m@,
            None => uri_path@,
        },
        r.status@ == decimal_text(status as int),
{
    let path = match matched_path {
        Some(m) => String::from_str(m),
        None => String::from_str(uri_path),
    };
    RequestLabels { method: String::from_str(method), path, status: decimal_string(status as i64) }
}

} // verus!
