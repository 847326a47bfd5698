//! Page and retention parameters of the listing and cache tools.
use vstd::prelude::*;

verus! {

/// Incidents per page when none is given.
pub const DEFAULT_INCIDENT_PAGE_SIZE: i32 = 25;

/// First page of a numbered listing.
pub const DEFAULT_PAGE_NUMBER: i64 = 1;

/// Teams or users per page when none is given.
pub const DEFAULT_DIRECTORY_PAGE_SIZE: i64 = 100;

/// Hours of retention of the cache clean-up when none is given.
pub const DEFAULT_CLEANUP_HOURS: u64 = 24;

/// Page size of an incident listing.
pub fn incident_page_size(page_size: Option<i32>) -> (r: i32)
    ensures
        r == match page_size {
            Some(s) => s,
            None => DEFAULT_INCIDENT_PAGE_SIZE,
        },
{
    match page_size {
        Some(s) => s,
        None => DEFAULT_INCIDENT_PAGE_SIZE,
    }
}

/// Page number and size of a team or user listing.
pub fn directory_page(page_number: Option<i64>, page_size: Option<i64>) -> (r: (i64, i64))
    ensures
        r.0 == match page_number {
            Some(n) => n,
            None => DEFAULT_PAGE_NUMBER,
        },
        r.1 == match page_size {
            Some(s) => s,
            None => DEFAULT_DIRECTORY_PAGE_SIZE,
        },
{
    let n = match page_number {
        Some(n) => n,
        None => DEFAULT_PAGE_NUMBER,
    };
    let s = match page_size {
        Some(s) => s,
        None => DEFAULT_DIRECTORY_PAGE_SIZE,
    };
    (n, s)
}

/// Retention of a cache clean-up, in hours.
pub fn cleanup_hours(older_than_hours: Option<u64>) -> (r: u64)
    ensures
        r == match older_than_hours {
            Some(h) => h,
            None => DEFAULT_CLEANUP_HOURS,
        },
{
    match older_than_hours {
        Some(h) => h,
        None => DEFAULT_CLEANUP_HOURS,
    }
}

} // verus!
