//! A solo proof-of-work miner for a Bitcoin-style chain.
//!
//! The crate decodes a compact difficulty encoding into a 256-bit target,
//! builds the single reward-claiming transaction and its degenerate Merkle
//! root, lays out the 80-byte block header, searches the nonce space for a
//! header whose double-SHA-256 digest falls below the target, and serializes
//! the resulting block for submission.

pub mod bytes;
pub mod digest;
pub mod error;
pub mod hexcode;
pub mod compact;
pub mod header;
pub mod wire;
pub mod transaction;
pub mod block;
pub mod clock;
pub mod search;
pub mod settings;
pub mod mine;
