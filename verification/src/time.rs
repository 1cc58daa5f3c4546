//! Durations, which the verifier carries through as opaque values.

use std::time::Duration;
use vstd::prelude::*;

verus! {

/// The duration that `Duration::from_nanos` makes of a number of
/// nanoseconds.
pub uninterp spec fn duration_of_nanos(nanos: u64) -> Duration;

/// Calls `Duration::from_nanos`, which is defined for every `u64` and
/// depends on nothing but its argument.
#[verifier::external_body]
pub(crate) fn duration_from_nanos(nanos: u64) -> (d: Duration)
    ensures
        d == duration_of_nanos(nanos),
{
    Duration::from_nanos(nanos)
}

/// `Duration` is `Copy`, and its `clone` is that copy.
pub assume_specification[ <Duration as Clone>::clone ](d: &Duration) -> (copy: Duration)
    ensures
        copy == *d,
;

} // verus!
