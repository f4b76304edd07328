//! The header assembler: the exact 80-byte layout of a block header, and its
//! disassembly back into fields.

use crate::wire::{push_bytes, push_u32_le};
use vstd::bytes::{
    lemma_auto_spec_u32_to_from_le_bytes, spec_u32_from_le_bytes, spec_u32_to_le_bytes,
    u32_from_le_bytes,
};
use vstd::prelude::*;

verus! {

/// The canonical 80-byte header layout: version, previous hash, Merkle root,
/// timestamp, compact bits and nonce, every integer little-endian and both
/// hash fields already in protocol (reversed-from-display) byte order.
pub open spec fn spec_header_bytes(
    version: u32,
    prev_hash: Seq<u8>,
    merkle_root: Seq<u8>,
    time: u32,
    bits: u32,
    nonce: u32,
) -> Seq<u8> {
    spec_u32_to_le_bytes(version) + prev_hash + merkle_root + spec_u32_to_le_bytes(time)
        + spec_u32_to_le_bytes(bits) + spec_u32_to_le_bytes(nonce)
}

/// The fields recovered from an 80-byte header.
pub struct HeaderFields {
    pub version: u32,
    pub prev_hash: Vec<u8>,
    pub merkle_root: Vec<u8>,
    pub time: u32,
    pub bits: u32,
    pub nonce: u32,
}

/// Lays out the 80-byte block header. The two hash arguments must already be
/// in protocol byte order; they are copied as given.
pub fn assemble_header(
    version: u32,
    prev_hash: &Vec<u8>,
    merkle_root: &Vec<u8>,
    time: u32,
    bits: u32,
    nonce: u32,
) -> (header: Vec<u8>)
    requires
        prev_hash@.len() == 32,
        merkle_root@.len() == 32,
    ensures
        header@ == spec_header_bytes(version, prev_hash@, merkle_root@, time, bits, nonce),
        header@.len() == 80,
{
    proof {
        lemma_auto_spec_u32_to_from_le_bytes();
    }
    let mut header: Vec<u8> = Vec::new();
    push_u32_le(&mut header, version);
    push_bytes(&mut header, prev_hash);
    push_bytes(&mut header, merkle_root);
    push_u32_le(&mut header, time);
    push_u32_le(&mut header, bits);
    push_u32_le(&mut header, nonce);
    header
}

/// Reads a `u32` from four little-endian bytes of a buffer.
fn read_u32_le(h: &Vec<u8>, offset: usize) -> (x: u32)
    requires
        offset + 4 <= h@.len(),
    ensures
        x == spec_u32_from_le_bytes(h@.subrange(offset as int, offset as int + 4)),
{
    let n = h.len();
    proof {
        assert(offset + 4 <= n);
    }
    let mut le: Vec<u8> = Vec::new();
    le.push(h[offset]);
    le.push(h[offset + 1]);
    le.push(h[offset + 2]);
    le.push(h[offset + 3]);
    proof {
        assert(le@ =~= h@.subrange(offset as int, offset as int + 4));
    }
    u32_from_le_bytes(le.as_slice())
}

/// Copies `count` bytes of a buffer starting at `offset`.
fn read_bytes(h: &Vec<u8>, offset: usize, count: usize) -> (r: Vec<u8>)
    requires
        offset + count <= h@.len(),
    ensures
        r@ == h@.subrange(offset as int, offset as int + count as int),
{
    let n = h.len();
    let mut r: Vec<u8> = Vec::new();
    let mut i: usize = 0;
    while i < count
        invariant
            i <= count,
            offset + count <= n,
            n == h@.len(),
            r@ == h@.subrange(offset as int, offset as int + i as int),
        decreases count - i,
    {
        r.push(h[offset + i]);
        proof {
            assert(h@.subrange(offset as int, offset as int + i as int) + seq![
                h@[offset as int + i as int],
            ] =~= h@.subrange(offset as int, offset as int + i as int + 1));
        }
        i = i + 1;
    }
    r
}

/// Disassembles an 80-byte header into its fields. Together with
/// `assemble_header`'s layout contract this recovers, for every assembled
/// header, exactly the original field values (see `lemma_header_roundtrip`).
pub fn disassemble_header(header: &Vec<u8>) -> (fields: HeaderFields)
    requires
        header@.len() == 80,
    ensures
        fields.version == spec_u32_from_le_bytes(header@.subrange(0, 4)),
        fields.prev_hash@ == header@.subrange(4, 36),
        fields.merkle_root@ == header@.subrange(36, 68),
        fields.time == spec_u32_from_le_bytes(header@.subrange(68, 72)),
        fields.bits == spec_u32_from_le_bytes(header@.subrange(72, 76)),
        fields.nonce == spec_u32_from_le_bytes(header@.subrange(76, 80)),
{
    HeaderFields {
        version: read_u32_le(header, 0),
        prev_hash: read_bytes(header, 4, 32),
        merkle_root: read_bytes(header, 36, 32),
        time: read_u32_le(header, 68),
        bits: read_u32_le(header, 72),
        nonce: read_u32_le(header, 76),
    }
}

/// Disassembling an assembled header recovers the exact original fields.
pub proof fn lemma_header_roundtrip(
    version: u32,
    prev_hash: Seq<u8>,
    merkle_root: Seq<u8>,
    time: u32,
    bits: u32,
    nonce: u32,
)
    requires
        prev_hash.len() == 32,
        merkle_root.len() == 32,
    ensures
        ({
            let h = spec_header_bytes(version, prev_hash, merkle_root, time, bits, nonce);
            &&& h.len() == 80
            &&& spec_u32_from_le_bytes(h.subrange(0, 4)) == version
            &&& h.subrange(4, 36) == prev_hash
            &&& h.subrange(36, 68) == merkle_root
            &&& spec_u32_from_le_bytes(h.subrange(68, 72)) == time
            &&& spec_u32_from_le_bytes(h.subrange(72, 76)) == bits
            &&& spec_u32_from_le_bytes(h.subrange(76, 80)) == nonce
        }),
{
    lemma_auto_spec_u32_to_from_le_bytes();
    let h = spec_header_bytes(version, prev_hash, merkle_root, time, bits, nonce);
    assert(h.subrange(0, 4) =~= spec_u32_to_le_bytes(version));
    assert(h.subrange(4, 36) =~= prev_hash);
    assert(h.subrange(36, 68) =~= merkle_root);
    assert(h.subrange(68, 72) =~= spec_u32_to_le_bytes(time));
    assert(h.subrange(72, 76) =~= spec_u32_to_le_bytes(bits));
    assert(h.subrange(76, 80) =~= spec_u32_to_le_bytes(nonce));
}

} // verus!
