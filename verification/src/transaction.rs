//! The reward transaction builder: the single coinbase-style transaction
//! that claims the block reward, its canonical wire serialization, and the
//! Merkle root of the one-transaction tree it is the sole leaf of.

use crate::bytes::zero_vec;
use crate::digest::{sha256d, spec_sha256d};
use crate::error::MinerError;
use crate::wire::{push_bytes, push_u32_le, push_u64_le, push_varint, spec_varint};
use vstd::bytes::{spec_u32_to_le_bytes, spec_u64_to_le_bytes};
use vstd::prelude::*;
use vstd::string::*;

verus! {

/// The minimal reward-claiming transaction: one input referencing a null
/// previous output and carrying a fixed identification tag instead of an
/// unlocking script, and one output paying the reward to a locking script.
#[derive(Debug)]
pub struct RewardTransaction {
    /// The locking script the reward is paid to.
    pub script_pubkey: Vec<u8>,
    /// The reward in the smallest currency unit.
    pub amount: u64,
}

/// The fixed tag carried by the transaction's single input in lieu of a
/// signature script.
pub open spec fn spec_coinbase_tag() -> Seq<u8> {
    seq![
        0x2fu8, 0x73, 0x6f, 0x6c, 0x6f, 0x2d, 0x6d, 0x69, 0x6e, 0x65, 0x72, 0x2f, 0x72, 0x75,
        0x73, 0x74, 0x2d, 0x70, 0x69, 0x2d, 0x65, 0x64, 0x75, 0x2f,
    ]
}

/// Builds the input tag, the ASCII bytes of `/solo-miner/rust-pi-edu/`.
fn coinbase_tag() -> (tag: Vec<u8>)
    ensures
        tag@ == spec_coinbase_tag(),
{
    let mut tag: Vec<u8> = Vec::new();
    tag.push(0x2f);
    tag.push(0x73);
    tag.push(0x6f);
    tag.push(0x6c);
    tag.push(0x6f);
    tag.push(0x2d);
    tag.push(0x6d);
    tag.push(0x69);
    tag.push(0x6e);
    tag.push(0x65);
    tag.push(0x72);
    tag.push(0x2f);
    tag.push(0x72);
    tag.push(0x75);
    tag.push(0x73);
    tag.push(0x74);
    tag.push(0x2d);
    tag.push(0x70);
    tag.push(0x69);
    tag.push(0x2d);
    tag.push(0x65);
    tag.push(0x64);
    tag.push(0x75);
    tag.push(0x2f);
    proof {
        assert(tag@ =~= spec_coinbase_tag());
    }
    tag
}

/// The canonical wire encoding of the reward transaction: version 1, one
/// input spending the null outpoint (zero txid, index 0xffffffff) with the
/// fixed tag as script and maximal sequence, one output of `amount` to
/// `script_pubkey`, and lock time zero. With no witnesses, the legacy
/// encoding applies.
pub open spec fn spec_tx_bytes(script_pubkey: Seq<u8>, amount: u64) -> Seq<u8> {
    spec_u32_to_le_bytes(1) + spec_varint(1) + Seq::new(32, |i: int| 0u8) + spec_u32_to_le_bytes(
        0xffffffff,
    ) + spec_varint(24) + spec_coinbase_tag() + spec_u32_to_le_bytes(0xffffffff) + spec_varint(1)
        + spec_u64_to_le_bytes(amount) + spec_varint(script_pubkey.len() as u64) + script_pubkey
        + spec_u32_to_le_bytes(0)
}

/// Serializes the reward transaction in its canonical wire encoding.
pub fn serialize_transaction(tx: &RewardTransaction) -> (r: Vec<u8>)
    ensures
        r@ == spec_tx_bytes(tx.script_pubkey@, tx.amount),
{
    let mut r: Vec<u8> = Vec::new();
    push_u32_le(&mut r, 1);
    push_varint(&mut r, 1);
    let null_txid = zero_vec(32);
    push_bytes(&mut r, &null_txid);
    proof {
        assert(null_txid@ =~= Seq::new(32, |i: int| 0u8));
    }
    push_u32_le(&mut r, 0xffffffff);
    push_varint(&mut r, 24);
    let tag = coinbase_tag();
    push_bytes(&mut r, &tag);
    push_u32_le(&mut r, 0xffffffff);
    push_varint(&mut r, 1);
    push_u64_le(&mut r, tx.amount);
    push_varint(&mut r, tx.script_pubkey.len() as u64);
    push_bytes(&mut r, &tx.script_pubkey);
    push_u32_le(&mut r, 0);
    r
}

/// The locking script a destination address resolves to on the main network,
/// or nothing when the address is malformed or belongs to another network.
/// The outcome depends on the address string alone.
pub uninterp spec fn mainnet_script(addr: Seq<char>) -> Option<Seq<u8>>;

/// Relies on bitcoin::Address's FromStr parse, Address::require_network with
/// Network::Bitcoin, and Address::script_pubkey: parsing and script
/// derivation are pure functions of the address string, and resolution
/// succeeds exactly when the string is a well-formed mainnet address.
#[verifier::external_body]
fn resolve_mainnet_script(addr: &str) -> (r: Result<Vec<u8>, String>)
    ensures
        r is Ok <==> mainnet_script(addr@) is Some,
        r is Ok ==> r.unwrap()@ == mainnet_script(addr@).unwrap(),
{
    let parsed: Result<bitcoin::Address<bitcoin::address::NetworkUnchecked>, _> = addr.parse();
    match parsed {
        Ok(unchecked) => match unchecked.require_network(bitcoin::Network::Bitcoin) {
            Ok(checked) => Ok(checked.script_pubkey().to_bytes()),
            Err(e) => Err(e.to_string()),
        },
        Err(e) => Err(e.to_string()),
    }
}

/// Resolves the reward address, builds the reward transaction, and derives
/// the Merkle root of the block's one-transaction tree: the double hash of
/// the transaction's serialization. Fails, before any hashing begins, iff
/// the address does not resolve on the main network.
pub fn calculate_merkle_root(reward_address: &str, block_reward_sats: u64) -> (r: Result<
    (Vec<u8>, RewardTransaction),
    MinerError,
>)
    ensures
        r is Ok <==> mainnet_script(reward_address@) is Some,
        r is Ok ==> ({
            let root = r.unwrap().0;
            let tx = r.unwrap().1;
            &&& tx.script_pubkey@ == mainnet_script(reward_address@).unwrap()
            &&& tx.amount == block_reward_sats
            &&& root@ == spec_sha256d(spec_tx_bytes(tx.script_pubkey@, tx.amount))
            &&& root@.len() == 32
        }),
        r is Err ==> r.unwrap_err() is InvalidDestination,
{
    match resolve_mainnet_script(reward_address) {
        Ok(script) => {
            let tx = RewardTransaction { script_pubkey: script, amount: block_reward_sats };
            let serialized = serialize_transaction(&tx);
            let root = sha256d(serialized.as_slice());
            Ok((root, tx))
        },
        Err(why) => {
            let mut message = String::from_str("invalid or non-mainnet reward address: ");
            message.append(why.as_str());
            Err(MinerError::InvalidDestination(message))
        },
    }
}

/// The reward transaction's serialization is byte-stable: identical script
/// and amount always give identical wire bytes.
pub proof fn lemma_tx_serialization_stable(s1: Seq<u8>, a1: u64, s2: Seq<u8>, a2: u64)
    requires
        s1 == s2,
        a1 == a2,
    ensures
        spec_tx_bytes(s1, a1) == spec_tx_bytes(s2, a2),
{
}

} // verus!
