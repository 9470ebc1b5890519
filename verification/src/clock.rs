//! Wall-clock access for timestamping statistics.

use vstd::prelude::*;

verus! {

/// Relies on `std::time::SystemTime::now`: the moment of the call, converted
/// to whole nanoseconds since the Unix epoch (zero if the clock reads before
/// the epoch).  Nothing can be promised of what the clock returns.
#[verifier::external_body]
pub(crate) fn now_nanos() -> u64 {
    std::time::SystemTime::now()
        .duration_since(std::time::SystemTime::UNIX_EPOCH)
        .unwrap_or_default()
        .as_nanos() as u64
}

} // verus!
