//! The double-SHA-256 digest primitive used for transaction hashing,
//! Merkle-root derivation and block-header hashing.

use sha2::Digest;
use vstd::prelude::*;

verus! {

/// The SHA-256 digest of a byte sequence. The function itself is left
/// unspecified; everything the miner proves about hashing is relative to it.
pub uninterp spec fn sha256_of(input: Seq<u8>) -> Seq<u8>;

/// The protocol's double hash: SHA-256 applied to a SHA-256 digest.
pub open spec fn spec_sha256d(input: Seq<u8>) -> Seq<u8> {
    sha256_of(sha256_of(input))
}

/// Relies on sha2::Sha256::digest: the digest is 32 bytes and depends on the
/// input bytes alone.
#[verifier::external_body]
fn sha256(data: &[u8]) -> (r: Vec<u8>)
    ensures
        r@ == sha256_of(data@),
        r@.len() == 32,
{
    sha2::Sha256::digest(data).to_vec()
}

/// Applies SHA-256 twice in sequence: the digest of the first digest's raw
/// 32-byte output.
pub fn sha256d(data: &[u8]) -> (r: Vec<u8>)
    ensures
        r@ == spec_sha256d(data@),
        r@.len() == 32,
{
    let first = sha256(data);
    sha256(first.as_slice())
}

/// The double hash is deterministic: equal inputs give equal 32-byte digests.
pub proof fn lemma_sha256d_deterministic(a: Seq<u8>, b: Seq<u8>)
    requires
        a == b,
    ensures
        spec_sha256d(a) == spec_sha256d(b),
{
}

} // verus!
