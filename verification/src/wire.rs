//! Primitives of the canonical wire encoding: little-endian integers and the
//! variable-length integer that prefixes counts and byte strings.

use vstd::bytes::{
    lemma_auto_spec_u16_to_from_le_bytes, lemma_auto_spec_u32_to_from_le_bytes,
    lemma_auto_spec_u64_to_from_le_bytes, spec_u16_to_le_bytes, spec_u32_to_le_bytes,
    spec_u64_to_le_bytes, u16_to_le_bytes, u32_to_le_bytes, u64_to_le_bytes,
};
use vstd::prelude::*;

verus! {

/// The wire form of a count: one byte below 0xfd, otherwise a marker byte
/// followed by the value in 2, 4 or 8 little-endian bytes.
pub open spec fn spec_varint(n: u64) -> Seq<u8> {
    if n < 0xfd {
        seq![n as u8]
    } else if n <= 0xffff {
        seq![0xfdu8] + spec_u16_to_le_bytes(n as u16)
    } else if n <= 0xffffffff {
        seq![0xfeu8] + spec_u32_to_le_bytes(n as u32)
    } else {
        seq![0xffu8] + spec_u64_to_le_bytes(n)
    }
}

/// The wire size of a count.
pub proof fn lemma_varint_len(n: u64)
    ensures
        spec_varint(n).len() == if n < 0xfd {
            1int
        } else if n <= 0xffff {
            3int
        } else if n <= 0xffffffff {
            5int
        } else {
            9int
        },
{
    lemma_auto_spec_u16_to_from_le_bytes();
    lemma_auto_spec_u32_to_from_le_bytes();
    lemma_auto_spec_u64_to_from_le_bytes();
}

/// Appends the little-endian bytes of a `u32` to a buffer.
pub fn push_u32_le(out: &mut Vec<u8>, x: u32)
    ensures
        final(out)@ == old(out)@ + spec_u32_to_le_bytes(x),
{
    let mut le = u32_to_le_bytes(x);
    out.append(&mut le);
}

/// Appends the little-endian bytes of a `u64` to a buffer.
pub fn push_u64_le(out: &mut Vec<u8>, x: u64)
    ensures
        final(out)@ == old(out)@ + spec_u64_to_le_bytes(x),
{
    let mut le = u64_to_le_bytes(x);
    out.append(&mut le);
}

/// Appends a copy of a byte vector to a buffer.
pub fn push_bytes(out: &mut Vec<u8>, bytes: &Vec<u8>)
    ensures
        final(out)@ == old(out)@ + bytes@,
{
    let mut i: usize = 0;
    while i < bytes.len()
        invariant
            i <= bytes@.len(),
            out@ == old(out)@ + bytes@.subrange(0, i as int),
        decreases bytes@.len() - i,
    {
        out.push(bytes[i]);
        proof {
            assert(old(out)@ + bytes@.subrange(0, i as int) + seq![bytes@[i as int]] =~= old(out)@
                + bytes@.subrange(0, i + 1));
        }
        i = i + 1;
    }
    proof {
        assert(bytes@.subrange(0, bytes@.len() as int) =~= bytes@);
    }
}

/// Appends the wire form of a count to a buffer.
pub fn push_varint(out: &mut Vec<u8>, n: u64)
    ensures
        final(out)@ == old(out)@ + spec_varint(n),
{
    if n < 0xfd {
        out.push(n as u8);
        proof {
            assert(old(out)@.push(n as u8) =~= old(out)@ + spec_varint(n));
        }
    } else if n <= 0xffff {
        out.push(0xfd);
        let mut le = u16_to_le_bytes(n as u16);
        out.append(&mut le);
        proof {
            assert(old(out)@.push(0xfdu8) + spec_u16_to_le_bytes(n as u16) =~= old(out)@
                + spec_varint(n));
        }
    } else if n <= 0xffffffff {
        out.push(0xfe);
        let mut le = u32_to_le_bytes(n as u32);
        out.append(&mut le);
        proof {
            assert(old(out)@.push(0xfeu8) + spec_u32_to_le_bytes(n as u32) =~= old(out)@
                + spec_varint(n));
        }
    } else {
        out.push(0xff);
        let mut le = u64_to_le_bytes(n);
        out.append(&mut le);
        proof {
            assert(old(out)@.push(0xffu8) + spec_u64_to_le_bytes(n) =~= old(out)@ + spec_varint(
                n,
            ));
        }
    }
}

} // verus!
