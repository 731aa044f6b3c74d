//! The wall clock, read in whole seconds.

use vstd::prelude::*;

verus! {

/// Reads the clock with `chrono::Utc::now` and gives its `timestamp`: the
/// whole seconds since 1970-01-01 00:00:00 UTC.
///
/// Trusted, not proved: the reading is never negative. `Utc::now` panics
/// where the system clock stands before the epoch, so no such reading comes
/// back. Nothing else is claimed of it: two readings may be equal, and the
/// clock may be set back between them.
#[verifier::external_body]
pub(crate) fn current_timestamp() -> (now: i64)
    ensures
        0 <= now,
{
    chrono::Utc::now().timestamp()
}

} // verus!
