//! The block serializer: on success the full block, header followed by the
//! one-transaction list, in canonical wire encoding, handed off as hex.

use crate::error::MinerError;
use crate::header::spec_header_bytes;
use crate::hexcode::{hex_encode, hex_of, lemma_hex_of_len};
use crate::transaction::{serialize_transaction, spec_tx_bytes, RewardTransaction};
use crate::wire::{lemma_varint_len, push_varint, spec_varint};
use vstd::bytes::lemma_auto_spec_u32_to_from_le_bytes;
use vstd::prelude::*;
use vstd::string::*;

verus! {

/// The canonical wire encoding of a mined block: the 80-byte header, the
/// transaction count (always one), and the reward transaction.
pub open spec fn spec_block_bytes(
    version: u32,
    prev_hash: Seq<u8>,
    merkle_root: Seq<u8>,
    time: u32,
    bits: u32,
    nonce: u32,
    script_pubkey: Seq<u8>,
    amount: u64,
) -> Seq<u8> {
    spec_header_bytes(version, prev_hash, merkle_root, time, bits, nonce) + spec_varint(1)
        + spec_tx_bytes(script_pubkey, amount)
}

/// Serializes the full block and returns its hex encoding for submission.
/// Both hash fields must be exactly 32 bytes, in protocol byte order; any
/// other size is rejected before encoding begins.
pub fn serialize_block(
    version: u32,
    prev_hash: &Vec<u8>,
    merkle_root: &Vec<u8>,
    nonce: u32,
    time: u32,
    bits: u32,
    tx: &RewardTransaction,
) -> (r: Result<String, MinerError>)
    ensures
        r is Ok <==> (prev_hash@.len() == 32 && merkle_root@.len() == 32),
        r is Ok ==> r.unwrap()@ == hex_of(
            spec_block_bytes(
                version,
                prev_hash@,
                merkle_root@,
                time,
                bits,
                nonce,
                tx.script_pubkey@,
                tx.amount,
            ),
        ),
        r is Err ==> r.unwrap_err() is SerializationError,
{
    if prev_hash.len() != 32 {
        return Err(
            MinerError::SerializationError(
                String::from_str("previous block hash field must be exactly 32 bytes"),
            ),
        );
    }
    if merkle_root.len() != 32 {
        return Err(
            MinerError::SerializationError(
                String::from_str("merkle root field must be exactly 32 bytes"),
            ),
        );
    }
    let mut block = crate::header::assemble_header(
        version,
        prev_hash,
        merkle_root,
        time,
        bits,
        nonce,
    );
    push_varint(&mut block, 1);
    let mut tx_bytes = serialize_transaction(tx);
    block.append(&mut tx_bytes);
    Ok(hex_encode(&block))
}

/// The wire size of the reward transaction: 83 fixed bytes plus the
/// script's length prefix and the script itself.
pub proof fn lemma_tx_bytes_len(script_pubkey: Seq<u8>, amount: u64)
    ensures
        spec_tx_bytes(script_pubkey, amount).len() == 83 + spec_varint(
            script_pubkey.len() as u64,
        ).len() + script_pubkey.len(),
{
    lemma_auto_spec_u32_to_from_le_bytes();
    vstd::bytes::lemma_auto_spec_u64_to_from_le_bytes();
    lemma_varint_len(1);
    lemma_varint_len(24);
}

/// The hex string of a serialized block decodes to exactly the 80 header
/// bytes, the one-byte transaction count, and the transaction's wire size.
pub proof fn lemma_block_hex_len(
    version: u32,
    prev_hash: Seq<u8>,
    merkle_root: Seq<u8>,
    time: u32,
    bits: u32,
    nonce: u32,
    script_pubkey: Seq<u8>,
    amount: u64,
)
    requires
        prev_hash.len() == 32,
        merkle_root.len() == 32,
    ensures
        hex_of(
            spec_block_bytes(
                version,
                prev_hash,
                merkle_root,
                time,
                bits,
                nonce,
                script_pubkey,
                amount,
            ),
        ).len() == 2 * (80 + 1 + spec_tx_bytes(script_pubkey, amount).len()),
{
    lemma_auto_spec_u32_to_from_le_bytes();
    lemma_varint_len(1);
    lemma_hex_of_len(
        spec_block_bytes(version, prev_hash, merkle_root, time, bits, nonce, script_pubkey, amount),
    );
}

} // verus!
