//! Fallback routes.
use vstd::prelude::*;

use crate::error::{app_error_view, AppError};

verus! {

/// The error a request for an unknown route is answered with: 404, "Route does not exist!".
pub fn notfound_404() -> (err: AppError)
    ensures
        err@ == app_error_view(404, Some("Route does not exist!"@)),
{
    AppError::new(404, Some(String::from_str("Route does not exist!")))
}

} // verus!
