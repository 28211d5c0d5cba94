//! The wall clock, read through a trusted declaration.

use vstd::prelude::*;

verus! {

/// Relies on std's `SystemTime::now` and `duration_since` the epoch: the
/// current time in microseconds.  Nothing can be promised of the value.
#[verifier::external_body]
pub fn now_micros() -> u64 {
    std::time::SystemTime::now().duration_since(std::time::UNIX_EPOCH).map(
        |d| d.as_micros() as u64,
    ).unwrap_or_default()
}

} // verus!
