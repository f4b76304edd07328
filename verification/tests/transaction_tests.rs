//! Tests for the reward transaction builder and its wire serialization.

use bitcoin::consensus::Encodable;
use sha2::{Digest, Sha256};
use solo_miner::error::MinerError;
use solo_miner::transaction::{calculate_merkle_root, serialize_transaction, RewardTransaction};

// The historical genesis reward address, a well-formed mainnet destination.
const MAINNET_ADDRESS: &str = "1A1zP1eP5QGefi2DMPTfTL5SLmv7DivfNa";

#[test]
fn rejects_wrong_network_address() {
    // A testnet bech32 address must not be accepted on mainnet.
    let r = calculate_merkle_root("tb1qw508d6qejxtdg4y5r3zarvary0c5xw7kxpjzsx", 5000000000);
    assert!(matches!(r, Err(MinerError::InvalidDestination(_))));
}

#[test]
fn rejects_wrong_network_legacy_address() {
    // A testnet legacy address must not be accepted either.
    let r = calculate_merkle_root("mipcBbFg9gMiCh81Kj8tqqdgoZub1ZJRfn", 5000000000);
    assert!(matches!(r, Err(MinerError::InvalidDestination(_))));
}

#[test]
fn rejects_malformed_address() {
    let r = calculate_merkle_root("not-an-address", 5000000000);
    assert!(matches!(r, Err(MinerError::InvalidDestination(_))));
}

#[test]
fn accepts_mainnet_address_and_resolves_script() {
    let (root, tx) = calculate_merkle_root(MAINNET_ADDRESS, 5000000000).unwrap();
    // The pay-to-public-key-hash script this address resolves to.
    let expected_script =
        hex::decode("76a91462e907b15cbf27d5425399ebf6f0fb50ebb88f1888ac").unwrap();
    assert_eq!(tx.script_pubkey, expected_script);
    assert_eq!(tx.amount, 5000000000);
    assert_eq!(root.len(), 32);
}

#[test]
fn merkle_root_is_double_hash_of_serialization() {
    let (root, tx) = calculate_merkle_root(MAINNET_ADDRESS, 625000000).unwrap();
    let serialized = serialize_transaction(&tx);
    let expected = Sha256::digest(Sha256::digest(&serialized));
    assert_eq!(root, expected.to_vec());
}

#[test]
fn serialization_is_byte_stable() {
    let (root1, tx1) = calculate_merkle_root(MAINNET_ADDRESS, 625000000).unwrap();
    let (root2, tx2) = calculate_merkle_root(MAINNET_ADDRESS, 625000000).unwrap();
    assert_eq!(serialize_transaction(&tx1), serialize_transaction(&tx2));
    assert_eq!(root1, root2);
}

#[test]
fn transaction_wire_layout_is_exact() {
    let tx = RewardTransaction { script_pubkey: vec![0xaa, 0xbb], amount: 0x0102030405060708 };
    let mut expected: Vec<u8> = Vec::new();
    expected.extend_from_slice(&[0x01, 0x00, 0x00, 0x00]); // version 1
    expected.push(0x01); // one input
    expected.extend_from_slice(&[0u8; 32]); // null previous txid
    expected.extend_from_slice(&[0xff, 0xff, 0xff, 0xff]); // null previous index
    expected.push(24); // tag length
    expected.extend_from_slice(b"/solo-miner/rust-pi-edu/");
    expected.extend_from_slice(&[0xff, 0xff, 0xff, 0xff]); // sequence
    expected.push(0x01); // one output
    expected.extend_from_slice(&[0x08, 0x07, 0x06, 0x05, 0x04, 0x03, 0x02, 0x01]); // amount
    expected.push(0x02); // script length
    expected.extend_from_slice(&[0xaa, 0xbb]);
    expected.extend_from_slice(&[0x00, 0x00, 0x00, 0x00]); // lock time
    assert_eq!(serialize_transaction(&tx), expected);
}

#[test]
fn transaction_matches_reference_encoder() {
    // The crate's own wire encoding must agree byte for byte with the
    // reference consensus encoder applied to the same transaction.
    let (_, tx) = calculate_merkle_root(MAINNET_ADDRESS, 625000000).unwrap();
    let reference_tx = bitcoin::Transaction {
        version: bitcoin::transaction::Version::ONE,
        lock_time: bitcoin::absolute::LockTime::ZERO,
        input: vec![bitcoin::TxIn {
            previous_output: bitcoin::OutPoint::null(),
            script_sig: bitcoin::ScriptBuf::from_bytes(b"/solo-miner/rust-pi-edu/".to_vec()),
            sequence: bitcoin::transaction::Sequence::MAX,
            witness: bitcoin::Witness::new(),
        }],
        output: vec![bitcoin::TxOut {
            value: bitcoin::Amount::from_sat(625000000),
            script_pubkey: bitcoin::ScriptBuf::from_bytes(tx.script_pubkey.clone()),
        }],
    };
    let mut reference_bytes = Vec::new();
    reference_tx.consensus_encode(&mut reference_bytes).unwrap();
    assert_eq!(serialize_transaction(&tx), reference_bytes);
}

#[test]
fn long_script_gets_extended_length_prefix() {
    let tx = RewardTransaction { script_pubkey: vec![0x55; 300], amount: 1 };
    let bytes = serialize_transaction(&tx);
    // After version, input, tag and output preamble: 4+1+32+4+1+24+4+1+8 = 79
    // bytes, then the script length as 0xfd plus two little-endian bytes.
    assert_eq!(bytes[79], 0xfd);
    assert_eq!(bytes[80], 0x2c);
    assert_eq!(bytes[81], 0x01);
    assert_eq!(bytes.len(), 79 + 3 + 300 + 4);
}
