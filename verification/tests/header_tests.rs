//! Tests for the 80-byte header assembler and disassembler.

use solo_miner::header::{assemble_header, disassemble_header};

#[test]
fn header_layout_is_exact() {
    let prev = vec![0x11u8; 32];
    let merkle = vec![0x22u8; 32];
    let header = assemble_header(0x01020304, &prev, &merkle, 0x05060708, 0x090a0b0c, 0x0d0e0f10);
    assert_eq!(header.len(), 80);
    // Little-endian integers at their fixed offsets.
    assert_eq!(&header[0..4], &[0x04, 0x03, 0x02, 0x01]);
    assert_eq!(&header[4..36], prev.as_slice());
    assert_eq!(&header[36..68], merkle.as_slice());
    assert_eq!(&header[68..72], &[0x08, 0x07, 0x06, 0x05]);
    assert_eq!(&header[72..76], &[0x0c, 0x0b, 0x0a, 0x09]);
    assert_eq!(&header[76..80], &[0x10, 0x0f, 0x0e, 0x0d]);
}

#[test]
fn header_roundtrip_recovers_fields() {
    let prev: Vec<u8> = (0u8..32).collect();
    let merkle: Vec<u8> = (32u8..64).collect();
    let header = assemble_header(0x20000000, &prev, &merkle, 1706000000, 0x1800ffff, 987654321);
    let fields = disassemble_header(&header);
    assert_eq!(fields.version, 0x20000000);
    assert_eq!(fields.prev_hash, prev);
    assert_eq!(fields.merkle_root, merkle);
    assert_eq!(fields.time, 1706000000);
    assert_eq!(fields.bits, 0x1800ffff);
    assert_eq!(fields.nonce, 987654321);
}
