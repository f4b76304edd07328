//! The miner's fatal error conditions. Exhaustion of the nonce space is not
//! an error and is reported through the search outcome instead.

use vstd::prelude::*;

verus! {

/// A fatal condition that aborts the current mining attempt.
#[derive(Debug)]
pub enum MinerError {
    /// The reward destination is malformed or belongs to the wrong network.
    /// Raised before any hashing begins; not retryable.
    InvalidDestination(String),
    /// A hash field does not have the exact 32-byte wire size, or the
    /// template's previous-hash hex cannot be decoded.
    SerializationError(String),
}

} // verus!
