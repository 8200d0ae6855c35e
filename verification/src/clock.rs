//! The wall clock, read as a number.

use vstd::prelude::*;

verus! {

/// `SystemTime::now`, taken as nanoseconds since the Unix epoch (zero for a
/// clock set before it). Nothing is claimed of the reading: two calls may
/// return anything, in any order.
#[verifier::external_body]
pub(crate) fn wall_clock_nanos() -> (nanos: u128) {
    match std::time::SystemTime::now().duration_since(std::time::UNIX_EPOCH) {
        Ok(since) => since.as_nanos(),
        Err(_) => 0,
    }
}

} // verus!
