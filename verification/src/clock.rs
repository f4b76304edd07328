//! The wall clock, read at the miner's boundary. Header timestamps are
//! 32-bit seconds since the Unix epoch.

use vstd::prelude::*;

verus! {

/// Relies on std::time::SystemTime::now and SystemTime::duration_since: the
/// current wall-clock seconds since the Unix epoch, truncated to 32 bits;
/// zero if the clock reads before the epoch. Nothing is promised of the
/// value: it may change, or even go backwards, between calls.
#[verifier::external_body]
pub(crate) fn unix_time_now() -> u32 {
    match std::time::SystemTime::now().duration_since(std::time::UNIX_EPOCH) {
        Ok(elapsed) => elapsed.as_secs() as u32,
        Err(_) => 0,
    }
}

} // verus!
