//! The search loop: the hot path that reassembles the header under varying
//! nonces and timestamps, double-hashes it, and compares against the target
//! until a qualifying hash is found or the nonce space is exhausted.

use crate::bytes::{all_zero, le_bytes_lt, le_val, lemma_le_val_zero, reverse_bytes};
use crate::clock::unix_time_now;
use crate::digest::{sha256d, spec_sha256d};
use crate::header::{assemble_header, spec_header_bytes};
use std::io::Write;
use vstd::prelude::*;

verus! {

/// How a search attempt ended: with a qualifying header, or with the
/// 32-bit nonce space exhausted for this template.
pub enum SearchOutcome {
    /// A qualifying header was found. `hash` is its double-SHA-256 digest in
    /// display byte order (the reversal of the raw digest); `nonce` and
    /// `timestamp` are the header fields it was found under.
    Found { nonce: u32, timestamp: u32, hash: Vec<u8> },
    /// Every nonce from the starting point up to the 32-bit maximum was
    /// tried without success. Not an error: the caller needs a fresh
    /// template to regain search space.
    Exhausted,
}

/// Relies on std::io::Write via writeln on standard output: prints one
/// throughput observation and promises nothing.
#[verifier::external_body]
fn emit_status(total_hashes: u64, rate: u64) {
    let _ = writeln!(
        std::io::stdout(),
        "status: {} hashes tried, about {} hashes per second",
        total_hashes,
        rate,
    );
}

/// How many hashes are tried between two throughput observations.
pub const REPORT_INTERVAL: u64 = 1000000;

/// One tried nonce failed: under timestamp `t`, the header's double hash,
/// read as a little-endian integer, is at or above the target value.
pub open spec fn nonce_refuted(
    version: u32,
    prev_hash: Seq<u8>,
    merkle_root: Seq<u8>,
    bits: u32,
    t: u32,
    nonce: u32,
    target_val: nat,
) -> bool {
    le_val(spec_sha256d(spec_header_bytes(version, prev_hash, merkle_root, t, bits, nonce)))
        >= target_val
}

/// The timestamps `ts` witness, one entry per nonce from `start_nonce`
/// upward, that each of those nonces failed against the target value.
pub open spec fn nonces_refuted_from(
    version: u32,
    prev_hash: Seq<u8>,
    merkle_root: Seq<u8>,
    bits: u32,
    start_nonce: u32,
    ts: Seq<u32>,
    target_val: nat,
) -> bool {
    forall|i: int|
        0 <= i < ts.len() ==> nonce_refuted(
            version,
            prev_hash,
            merkle_root,
            bits,
            ts[i],
            (start_nonce + i) as u32,
            target_val,
        )
}

/// Exhaustion is reached only by searching the whole remaining nonce space:
/// some sequence of per-iteration timestamps refutes every nonce from the
/// starting point up to the 32-bit maximum.
pub open spec fn exhaustion_witnessed(
    version: u32,
    prev_hash: Seq<u8>,
    merkle_root: Seq<u8>,
    bits: u32,
    start_nonce: u32,
    target_val: nat,
) -> bool {
    exists|ts: Seq<u32>|
        ts.len() == u32::MAX - start_nonce + 1 && nonces_refuted_from(
            version,
            prev_hash,
            merkle_root,
            bits,
            start_nonce,
            ts,
            target_val,
        )
}

/// Searches the nonce space from `start_nonce` upward. Each iteration
/// rebuilds the header with a freshly read timestamp, double-hashes it, and
/// succeeds iff the raw digest, read as a little-endian 256-bit integer, is
/// strictly below the target, which must already be in the same (protocol)
/// byte order. Exhaustion is never reported idly: it carries evidence that
/// every nonce from the start to the 32-bit maximum was tried, each under
/// the timestamp read for it, and failed. On a wholly zero target no hash
/// can qualify, and the search always ends in exhaustion.
pub fn search(
    version: u32,
    prev_hash: &Vec<u8>,
    merkle_root: &Vec<u8>,
    bits: u32,
    target_le: &Vec<u8>,
    start_nonce: u32,
) -> (outcome: SearchOutcome)
    requires
        prev_hash@.len() == 32,
        merkle_root@.len() == 32,
        target_le@.len() == 32,
    ensures
        (match outcome {
            SearchOutcome::Found { nonce, timestamp, hash } => {
                let header = spec_header_bytes(
                    version,
                    prev_hash@,
                    merkle_root@,
                    timestamp,
                    bits,
                    nonce,
                );
                &&& start_nonce <= nonce
                &&& hash@ == spec_sha256d(header).reverse()
                &&& le_val(spec_sha256d(header)) < le_val(target_le@)
            },
            SearchOutcome::Exhausted => exhaustion_witnessed(
                version,
                prev_hash@,
                merkle_root@,
                bits,
                start_nonce,
                le_val(target_le@),
            ),
        }),
        all_zero(target_le@) ==> outcome is Exhausted,
{
    let mut nonce: u32 = start_nonce;
    let mut total_hashes: u64 = 0;
    let mut window_hashes: u64 = 0;
    let mut window_start: u32 = unix_time_now();
    // The timestamps under which each nonce so far was tried and refuted.
    let ghost mut tried: Seq<u32> = Seq::empty();
    loop
        invariant
            prev_hash@.len() == 32,
            merkle_root@.len() == 32,
            target_le@.len() == 32,
            start_nonce <= nonce,
            total_hashes == nonce - start_nonce,
            window_hashes < REPORT_INTERVAL,
            tried.len() == nonce - start_nonce,
            nonces_refuted_from(
                version,
                prev_hash@,
                merkle_root@,
                bits,
                start_nonce,
                tried,
                le_val(target_le@),
            ),
        decreases u32::MAX - nonce,
    {
        let timestamp = unix_time_now();
        let header = assemble_header(version, prev_hash, merkle_root, timestamp, bits, nonce);
        let hash_raw = sha256d(header.as_slice());
        total_hashes = total_hashes + 1;
        window_hashes = window_hashes + 1;
        if le_bytes_lt(&hash_raw, target_le) {
            proof {
                lemma_le_val_zero(target_le@);
            }
            let hash = reverse_bytes(&hash_raw);
            return SearchOutcome::Found { nonce, timestamp, hash };
        }
        proof {
            let ghost target_val = le_val(target_le@);
            let ghost before = tried;
            tried = tried.push(timestamp);
            assert forall|i: int| 0 <= i < tried.len() implies nonce_refuted(
                version,
                prev_hash@,
                merkle_root@,
                bits,
                tried[i],
                (start_nonce + i) as u32,
                target_val,
            ) by {
                if i < tried.len() - 1 {
                    assert(tried[i] == before[i]);
                } else {
                    assert(tried[i] == timestamp);
                    assert((start_nonce + i) as u32 == nonce);
                }
            }
        }
        if nonce == u32::MAX {
            proof {
                assert(tried.len() == u32::MAX - start_nonce + 1);
                assert(exhaustion_witnessed(
                    version,
                    prev_hash@,
                    merkle_root@,
                    bits,
                    start_nonce,
                    le_val(target_le@),
                ));
            }
            return SearchOutcome::Exhausted;
        }
        nonce = nonce + 1;
        if window_hashes >= REPORT_INTERVAL {
            let now = unix_time_now();
            let elapsed: u32 = if now > window_start {
                now - window_start
            } else {
                1
            };
            let rate: u64 = window_hashes / (elapsed as u64);
            emit_status(total_hashes, rate);
            window_start = now;
            window_hashes = 0;
        }
    }
}

} // verus!
