//! One whole mining attempt: decode the template, build the reward
//! transaction, derive the target, search the nonce space, and serialize
//! the block on success. Submission itself is an external collaborator's
//! job; this module's responsibility ends at the hex-encoded block.

use crate::block::{serialize_block, spec_block_bytes};
use crate::bytes::{all_zero, be_val, le_val, lemma_be_val_zero, lemma_le_val_reverse, reverse_bytes};
use crate::compact::{compact_to_target, compact_value};
use crate::digest::spec_sha256d;
use crate::error::MinerError;
use crate::header::spec_header_bytes;
use crate::hexcode::{bytes_of_hex, hex_decode, hex_of, is_hex_string};
use crate::search::{exhaustion_witnessed, search, SearchOutcome};
use crate::settings::MinerSettings;
use crate::transaction::{calculate_merkle_root, mainnet_script, spec_tx_bytes};
use vstd::prelude::*;
use vstd::string::*;

verus! {

/// How a mining attempt ended: a serialized block ready for submission, or
/// a normally exhausted nonce space.
#[derive(Debug)]
pub enum MineOutcome {
    /// A qualifying block. `block_hex` is its canonical wire encoding as
    /// hex, ready for the submission collaborator; `block_hash` is the
    /// winning header's double hash in display byte order.
    Mined { block_hex: String, nonce: u32, timestamp: u32, block_hash: Vec<u8> },
    /// The whole 32-bit nonce space was searched without success; a fresh
    /// template is needed. Not an error.
    NonceSpaceExhausted,
}

/// The template's previous-hash field is well-formed: 64 hex digits.
pub open spec fn prev_hash_ok(s: Seq<char>) -> bool {
    is_hex_string(s) && bytes_of_hex(s).len() == 32
}

/// Decodes the previous block hash from display hex and reverses it into
/// protocol byte order.
fn decode_prev_hash(s: &str) -> (r: Result<Vec<u8>, MinerError>)
    ensures
        r is Ok <==> prev_hash_ok(s@),
        r is Ok ==> r.unwrap()@ == bytes_of_hex(s@).reverse(),
        r is Err ==> r.unwrap_err() is SerializationError,
{
    let decoded = match hex_decode(s) {
        Some(bytes) => bytes,
        None => {
            let mut message = String::from_str("previous block hash is not valid hex: ");
            message.append(s);
            return Err(MinerError::SerializationError(message));
        },
    };
    if decoded.len() != 32 {
        let mut message = String::from_str("previous block hash must be 64 hex digits: ");
        message.append(s);
        return Err(MinerError::SerializationError(message));
    }
    Ok(reverse_bytes(&decoded))
}

/// Runs one mining attempt over the given template. Fails before any
/// hashing iff the previous-hash hex is malformed (a serialization fault)
/// or the reward address does not resolve on the main network (an invalid
/// destination). Otherwise the search runs from nonce zero; on success the
/// returned block encodes exactly the winning header and the reward
/// transaction; an exhausted outcome carries evidence that the entire
/// 32-bit nonce space was searched; and an all-zero target can never be
/// won.
pub fn mine_block(settings: &MinerSettings) -> (r: Result<MineOutcome, MinerError>)
    ensures
        r is Ok <==> (prev_hash_ok(settings.prev_block_hash@) && mainnet_script(
            settings.reward_address@,
        ) is Some),
        !prev_hash_ok(settings.prev_block_hash@) ==> r is Err && r.unwrap_err()
            is SerializationError,
        prev_hash_ok(settings.prev_block_hash@) && mainnet_script(settings.reward_address@)
            is None ==> r is Err && r.unwrap_err() is InvalidDestination,
        (r matches Ok(MineOutcome::Mined { block_hex, nonce, timestamp, block_hash }) ==> ({
            let script = mainnet_script(settings.reward_address@).unwrap();
            let tx_bytes = spec_tx_bytes(script, settings.block_reward_sats);
            let prev_le = bytes_of_hex(settings.prev_block_hash@).reverse();
            let merkle_le = spec_sha256d(tx_bytes).reverse();
            let header = spec_header_bytes(
                settings.version,
                prev_le,
                merkle_le,
                timestamp,
                settings.nbits,
                nonce,
            );
            &&& le_val(spec_sha256d(header)) < compact_value(settings.nbits)
            &&& block_hash@ == spec_sha256d(header).reverse()
            &&& block_hex@ == hex_of(
                spec_block_bytes(
                    settings.version,
                    prev_le,
                    merkle_le,
                    timestamp,
                    settings.nbits,
                    nonce,
                    script,
                    settings.block_reward_sats,
                ),
            )
        })),
        r matches Ok(MineOutcome::NonceSpaceExhausted) ==> ({
            let script = mainnet_script(settings.reward_address@).unwrap();
            let tx_bytes = spec_tx_bytes(script, settings.block_reward_sats);
            let prev_le = bytes_of_hex(settings.prev_block_hash@).reverse();
            let merkle_le = spec_sha256d(tx_bytes).reverse();
            exhaustion_witnessed(
                settings.version,
                prev_le,
                merkle_le,
                settings.nbits,
                0,
                compact_value(settings.nbits),
            )
        }),
        compact_value(settings.nbits) == 0 ==> !(r matches Ok(MineOutcome::Mined { .. })),
{
    let prev_le = match decode_prev_hash(settings.prev_block_hash.as_str()) {
        Ok(bytes) => bytes,
        Err(e) => {
            return Err(e);
        },
    };
    let (merkle_root, tx) = match calculate_merkle_root(
        settings.reward_address.as_str(),
        settings.block_reward_sats,
    ) {
        Ok(pair) => pair,
        Err(e) => {
            return Err(e);
        },
    };
    let merkle_le = reverse_bytes(&merkle_root);
    let target_be = compact_to_target(settings.nbits);
    // The decoded target is big-endian; one reversal, here and nowhere else,
    // brings it into the digest's protocol byte order for comparison.
    let target_le = reverse_bytes(&target_be);
    proof {
        lemma_le_val_reverse(target_be@);
        lemma_be_val_zero(target_be@);
        if compact_value(settings.nbits) == 0 {
            assert(all_zero(target_be@));
            assert forall|i: int| 0 <= i < target_le@.len() implies target_le@[i] == 0 by {
                assert(target_be@[target_be@.len() - 1 - i] == 0);
            }
            assert(all_zero(target_le@));
        }
    }
    match search(settings.version, &prev_le, &merkle_le, settings.nbits, &target_le, 0) {
        SearchOutcome::Found { nonce, timestamp, hash } => {
            match serialize_block(
                settings.version,
                &prev_le,
                &merkle_le,
                nonce,
                timestamp,
                settings.nbits,
                &tx,
            ) {
                Ok(block_hex) => Ok(
                    MineOutcome::Mined { block_hex, nonce, timestamp, block_hash: hash },
                ),
                Err(e) => {
                    // Unreachable: both hash fields are exactly 32 bytes here.
                    proof {
                        assert(false);
                    }
                    Err(e)
                },
            }
        },
        SearchOutcome::Exhausted => Ok(MineOutcome::NonceSpaceExhausted),
    }
}

} // verus!
