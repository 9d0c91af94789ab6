//! The concurrency limit: a positive bound on how many navigate-and-capture
//! units may run at once, defaulting to 5 when the caller does not supply one.

use vstd::prelude::*;

verus! {

/// The default number of units allowed in flight at once.
pub const DEFAULT_LIMIT: usize = 5;

/// The concurrency limit that a batch actually runs under: the requested one
/// where the caller gave one, and the default of 5 otherwise.
pub fn effective_limit(requested: Option<usize>) -> (r: usize)
    ensures
        r == spec_effective_limit(requested),
{
    match requested {
        Option::Some(n) => n,
        Option::None => DEFAULT_LIMIT,
    }
}

/// What `effective_limit` returns.
pub open spec fn spec_effective_limit(requested: Option<usize>) -> usize {
    match requested {
        Option::Some(n) => n,
        Option::None => DEFAULT_LIMIT,
    }
}

} // verus!
