//! Tests for a whole mining attempt and for the template defaults.

use solo_miner::error::MinerError;
use solo_miner::mine::{mine_block, MineOutcome};
use solo_miner::settings::MinerSettings;

const MAINNET_ADDRESS: &str = "1A1zP1eP5QGefi2DMPTfTL5SLmv7DivfNa";

fn easy_settings() -> MinerSettings {
    MinerSettings {
        version: 0x20000000,
        prev_block_hash: "00000000000000000002f39baabb00ff11223344556677889900aabbccddeeff"
            .to_string(),
        // Exponent 32 with a maximal mantissa: almost every hash qualifies.
        nbits: 0x207fffff,
        reward_address: MAINNET_ADDRESS.to_string(),
        block_reward_sats: 625000000,
        timestamp: 0,
        rpc_url: "http://127.0.0.1:8332".to_string(),
        rpc_user: "user".to_string(),
        rpc_pass: "pass".to_string(),
    }
}

#[test]
fn easy_target_mines_a_block() {
    let settings = easy_settings();
    match mine_block(&settings).unwrap() {
        MineOutcome::Mined { block_hex, nonce: _, timestamp, block_hash } => {
            assert_eq!(block_hash.len(), 32);
            let bytes = hex::decode(&block_hex).unwrap();
            // Header, transaction count, and the reward transaction.
            assert!(bytes.len() > 81);
            assert_eq!(bytes[80], 0x01);
            // The header's previous hash is the template's hex, reversed
            // into protocol byte order.
            let mut prev = hex::decode(&settings.prev_block_hash).unwrap();
            prev.reverse();
            assert_eq!(&bytes[4..36], prev.as_slice());
            // The timestamp field round-trips through the header.
            let time_le = u32::from_le_bytes([bytes[68], bytes[69], bytes[70], bytes[71]]);
            assert_eq!(time_le, timestamp);
        }
        MineOutcome::NonceSpaceExhausted => {
            panic!("an almost-maximal target must be satisfiable")
        }
    }
}

#[test]
fn malformed_previous_hash_is_a_serialization_fault() {
    let mut settings = easy_settings();
    settings.prev_block_hash = "zz".to_string();
    let r = mine_block(&settings);
    assert!(matches!(r, Err(MinerError::SerializationError(_))));
}

#[test]
fn short_previous_hash_is_a_serialization_fault() {
    let mut settings = easy_settings();
    settings.prev_block_hash = "aabbcc".to_string();
    let r = mine_block(&settings);
    assert!(matches!(r, Err(MinerError::SerializationError(_))));
}

#[test]
fn wrong_network_address_aborts_before_hashing() {
    let mut settings = easy_settings();
    settings.reward_address = "tb1qw508d6qejxtdg4y5r3zarvary0c5xw7kxpjzsx".to_string();
    let r = mine_block(&settings);
    assert!(matches!(r, Err(MinerError::InvalidDestination(_))));
}

#[test]
fn default_settings_hold_documented_values() {
    let s = MinerSettings::default();
    assert_eq!(s.version, 0x20000000);
    assert_eq!(s.nbits, 0x1800ffff);
    assert_eq!(s.block_reward_sats, 625000000);
    assert_eq!(
        s.prev_block_hash,
        "000000000000000000021a8c91d4e78f9f23b123456789abcdef0123456789"
    );
    assert_eq!(s.reward_address, "bc1q...");
    assert_eq!(s.rpc_url, "http://127.0.0.1:8332");
    assert_eq!(s.rpc_user, "your_rpc_user");
    assert_eq!(s.rpc_pass, "your_rpc_password");
}

#[test]
fn hex_decoding_round_trips_through_the_block() {
    // The previous-hash hex written into the template comes back out of the
    // serialized block unchanged, so encoding and decoding did real work.
    let settings = easy_settings();
    if let MineOutcome::Mined { block_hex, .. } = mine_block(&settings).unwrap() {
        let bytes = hex::decode(&block_hex).unwrap();
        let mut prev = bytes[4..36].to_vec();
        prev.reverse();
        assert_eq!(hex::encode(&prev), settings.prev_block_hash);
    } else {
        panic!("an almost-maximal target must be satisfiable");
    }
}
