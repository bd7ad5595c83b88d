use std::time::Duration;
use vstd::prelude::*;

verus! {

/// The `Duration` that `Duration::new(secs, nanos)` builds.
pub uninterp spec fn duration_of(secs: u64, nanos: u32) -> Duration;

/// Number of nanoseconds in one second.
pub const NANOS_PER_SECOND: u32 = 1_000_000_000;

/// Calls `std::time::Duration::new`. The result is the value named
/// `duration_of(secs, nanos)`; the documentation makes it a pure function of its
/// arguments. `Duration::new` panics only when carrying excess nanoseconds
/// overflows the seconds, which the `requires` rules out.
#[verifier::external_body]
pub(crate) fn make_duration(secs: u64, nanos: u32) -> (d: Duration)
    requires
        nanos < NANOS_PER_SECOND,
    ensures
        d == duration_of(secs, nanos),
{
    Duration::new(secs, nanos)
}

} // verus!
