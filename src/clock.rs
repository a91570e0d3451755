//! The clock that measurements are stamped with.
use vstd::prelude::*;

verus! {

/// Relies on `time::precise_time_ns`: a reading in nanoseconds of the system's monotonic
/// clock, since an unspecified start. Nothing is promised of the value.
#[verifier::external_body]
pub(crate) fn precise_time_ns() -> u64 {
    time::precise_time_ns()
}

} // verus!
