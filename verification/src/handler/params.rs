//! Requests that must carry their parameters.

use vstd::prelude::*;
use crate::web::{Reason, WebErr};

verus! {

/// The parameters of a request, or the error for their absence.
pub fn require_params<T>(params: Option<T>) -> (r: Result<T, WebErr>)
    ensures
        params matches Some(p) ==> r == Ok::<T, WebErr>(p),
        params is None ==> r == Err::<T, WebErr>(WebErr { reason: Reason::MissingParameters }),
{
    match params {
        Some(p) => Ok(p),
        None => Err(WebErr::new(Reason::MissingParameters)),
    }
}

/// The query parameters of a lookup, or the error for their absence.
pub fn require_query<T>(params: Option<T>) -> (r: Result<T, WebErr>)
    ensures
        params matches Some(p) ==> r == Ok::<T, WebErr>(p),
        params is None ==> r == Err::<T, WebErr>(WebErr { reason: Reason::MissingQueryParameters }),
{
    match params {
        Some(p) => Ok(p),
        None => Err(WebErr::new(Reason::MissingQueryParameters)),
    }
}

} // verus!
