//! Tests for the block serializer.

use solo_miner::block::serialize_block;
use solo_miner::error::MinerError;
use solo_miner::header::assemble_header;
use solo_miner::transaction::{serialize_transaction, RewardTransaction};

fn sample_tx() -> RewardTransaction {
    RewardTransaction {
        script_pubkey: hex::decode("76a91462e907b15cbf27d5425399ebf6f0fb50ebb88f1888ac").unwrap(),
        amount: 625000000,
    }
}

#[test]
fn rejects_short_hash_field() {
    let prev = vec![0x11u8; 31];
    let merkle = vec![0x22u8; 32];
    let r = serialize_block(1, &prev, &merkle, 7, 1706000000, 0x1d00ffff, &sample_tx());
    assert!(matches!(r, Err(MinerError::SerializationError(_))));
}

#[test]
fn rejects_long_hash_field() {
    let prev = vec![0x11u8; 33];
    let merkle = vec![0x22u8; 32];
    let r = serialize_block(1, &prev, &merkle, 7, 1706000000, 0x1d00ffff, &sample_tx());
    assert!(matches!(r, Err(MinerError::SerializationError(_))));
}

#[test]
fn rejects_bad_merkle_field() {
    let prev = vec![0x11u8; 32];
    let merkle = vec![0x22u8; 31];
    let r = serialize_block(1, &prev, &merkle, 7, 1706000000, 0x1d00ffff, &sample_tx());
    assert!(matches!(r, Err(MinerError::SerializationError(_))));
}

#[test]
fn block_hex_has_exact_layout_and_length() {
    let prev = vec![0x11u8; 32];
    let merkle = vec![0x22u8; 32];
    let tx = sample_tx();
    let hex_block =
        serialize_block(0x20000000, &prev, &merkle, 42, 1706000000, 0x1800ffff, &tx).unwrap();
    let bytes = hex::decode(&hex_block).unwrap();
    let tx_bytes = serialize_transaction(&tx);
    // Header size, the one-byte transaction count, and the transaction.
    assert_eq!(bytes.len(), 80 + 1 + tx_bytes.len());
    let header = assemble_header(0x20000000, &prev, &merkle, 1706000000, 0x1800ffff, 42);
    assert_eq!(&bytes[0..80], header.as_slice());
    assert_eq!(bytes[80], 0x01);
    assert_eq!(&bytes[81..], tx_bytes.as_slice());
}
