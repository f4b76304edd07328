//! Tests for the nonce-search loop.

use solo_miner::digest::sha256d;
use solo_miner::header::assemble_header;
use solo_miner::search::{search, SearchOutcome};

#[test]
fn near_maximal_target_terminates_in_found() {
    let prev = vec![0x11u8; 32];
    let merkle = vec![0x22u8; 32];
    // A target of all 0xff: every digest short of all-ones qualifies, so the
    // very first nonces must already win.
    let target_le = vec![0xffu8; 32];
    match search(0x20000000, &prev, &merkle, 0x1800ffff, &target_le, 0) {
        SearchOutcome::Found { nonce, timestamp, hash } => {
            // The reported digest is the double hash of the header built
            // from the reported nonce and timestamp, in display order.
            let header = assemble_header(0x20000000, &prev, &merkle, timestamp, 0x1800ffff, nonce);
            let mut raw = sha256d(&header);
            // The winning comparison is numeric: little-endian digest below
            // little-endian target.
            let below = raw.iter().rev().cmp(target_le.iter().rev()) == std::cmp::Ordering::Less;
            assert!(below);
            raw.reverse();
            assert_eq!(hash, raw);
        }
        SearchOutcome::Exhausted => panic!("an almost-maximal target must be satisfiable"),
    }
}

#[test]
fn zero_target_terminates_in_exhausted() {
    let prev = vec![0x11u8; 32];
    let merkle = vec![0x22u8; 32];
    // No digest is numerically below zero: the loop must run the nonce
    // space to its end and report exhaustion, never a find.
    let target_le = vec![0x00u8; 32];
    let start = u32::MAX - 255;
    match search(0x20000000, &prev, &merkle, 0x1800ffff, &target_le, start) {
        SearchOutcome::Found { .. } => panic!("a zero target can never be won"),
        SearchOutcome::Exhausted => {}
    }
}
