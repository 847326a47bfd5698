//! Log search tools.
use vstd::prelude::*;
use crate::text::owned;

verus! {

/// Page size of a log search when none is given.
pub const DEFAULT_LOG_LIMIT: i32 = 100;

/// The message for a log search limit out of range.
pub const LOG_LIMIT_ERROR: &'static str = "Log search limit must be between 1 and 1000";

/// The page size of a log search: 100 when none is given; it must lie
/// between 1 and 1000.
pub fn log_search_limit(limit: Option<i32>) -> (r: Result<i32, String>)
    ensures
        ({
            let l = match limit {
                Some(l) => l,
                None => DEFAULT_LOG_LIMIT,
            };
            &&& 1 <= l <= 1000 ==> r == Ok::<i32, String>(l)
            &&& !(1 <= l <= 1000) ==> (r matches Err(m) && m@ == LOG_LIMIT_ERROR@)
        }),
{
    let l = match limit {
        Some(l) => l,
        None => DEFAULT_LOG_LIMIT,
    };
    if 1 <= l && l <= 1000 {
        Ok(l)
    } else {
        Err(owned(LOG_LIMIT_ERROR))
    }
}

} // verus!
