//! Tests for the double-SHA-256 digest primitive.

use sha2::{Digest, Sha256};
use solo_miner::digest::sha256d;

#[test]
fn double_hash_known_vector() {
    // The double SHA-256 of the empty input, a standard reference value.
    let expected =
        hex::decode("5df6e0e2761359d30a8275058e299fcc0381534545f55cf43e41983f5d4c9456").unwrap();
    assert_eq!(sha256d(&[]), expected);
}

#[test]
fn double_hash_is_double_application() {
    // Hash of a hash, not of a concatenation: applying plain SHA-256 twice
    // by hand must agree.
    let input = b"block header bytes";
    let first = Sha256::digest(input);
    let second = Sha256::digest(first);
    assert_eq!(sha256d(input), second.to_vec());
}

#[test]
fn double_hash_deterministic() {
    let a = sha256d(b"same input");
    let b = sha256d(b"same input");
    assert_eq!(a, b);
    assert_eq!(a.len(), 32);
}

#[test]
fn double_hash_sensitive_to_one_bit() {
    // The inputs 0x00 and 0x01 differ in a single bit.
    let a = sha256d(&[0x00]);
    let b = sha256d(&[0x01]);
    assert_ne!(a, b);
}
