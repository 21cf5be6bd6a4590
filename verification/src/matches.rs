//! Questions about matches.

use vstd::prelude::*;

verus! {

/// How many recent matches are listed where none is asked for.
pub const DEFAULT_RECENT_MATCHES: i64 = 5;

/// How many recent matches are listed at most.
pub const MAX_RECENT_MATCHES: i64 = 10;

/// How many recent matches to list where `limit` were asked for: as many as
/// asked, 5 where none was named, and never more than 10.
pub open spec fn spec_recent_matches_limit(limit: Option<i64>) -> i64 {
    let asked = match limit {
        Some(asked) => asked,
        None => DEFAULT_RECENT_MATCHES,
    };
    if asked <= MAX_RECENT_MATCHES {
        asked
    } else {
        MAX_RECENT_MATCHES
    }
}

/// How many recent matches to list where `limit` were asked for.
pub fn recent_matches_limit(limit: Option<i64>) -> (r: i64)
    ensures
        r == spec_recent_matches_limit(limit),
{
    let asked: i64 = match limit {
        Some(asked) => asked,
        None => DEFAULT_RECENT_MATCHES,
    };
    if asked <= MAX_RECENT_MATCHES {
        asked
    } else {
        MAX_RECENT_MATCHES
    }
}

} // verus!
