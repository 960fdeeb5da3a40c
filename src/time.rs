//! Durations built from whole microseconds.
use vstd::prelude::*;
use std::time::Duration;

verus! {

/// The duration of `us` microseconds.
pub uninterp spec fn duration_of_micros(us: u64) -> Duration;

/// Relies on `std::time::Duration::from_micros`: the duration depends on the
/// number of microseconds alone.
#[verifier::external_body]
pub(crate) fn micros(us: u64) -> (r: Duration)
    ensures
        r == duration_of_micros(us),
{
    Duration::from_micros(us)
}

} // verus!
