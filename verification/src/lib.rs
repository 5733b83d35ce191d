//! Verified core of an axum service: error values, status-code text, JSON request
//! rules, header decoding, client metrics labels, retry decisions and log fields.
use vstd::prelude::*;

pub mod error;
pub mod extract;
pub mod headers;
pub mod middleware;
pub mod routes;
pub mod status;

verus! {

/// Adds two integers; the sum must fit in an `i32`.
pub fn add(a: i32, b: i32) -> (sum: i32)
    requires
        i32::MIN <= a + b <= i32::MAX,
    ensures
        sum == a + b,
{
    a + b
}

} // verus!
