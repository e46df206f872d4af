//! The wall clock.

use vstd::prelude::*;

verus! {

/// Milliseconds since the Unix epoch, or 0 when the system clock reads
/// before the epoch.
///
/// Calls `std::time::SystemTime::now` and `duration_since(UNIX_EPOCH)`.
/// Nothing is promised of the value: it depends on the machine's clock.
#[verifier::external_body]
pub fn now_ms() -> u64 {
    match std::time::SystemTime::now().duration_since(std::time::UNIX_EPOCH) {
        Ok(d) => d.as_millis() as u64,
        Err(_) => 0,
    }
}

} // verus!
