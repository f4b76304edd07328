//! The target codec: decoding the 4-byte compact difficulty encoding into
//! the full 256-bit comparison target, in big-endian numeric order.

use crate::bytes::{all_zero, be_val, lemma_be_val_concat, pow256, zero_vec};
use vstd::prelude::*;

verus! {

/// The exponent byte of a compact encoding: the size, in bytes, of the
/// target's significant value.
pub open spec fn compact_exponent(nbits: u32) -> nat {
    (nbits >> 24) as nat
}

/// The mantissa of a compact encoding, with the conventional sign bit
/// masked off.
pub open spec fn compact_mantissa(nbits: u32) -> nat {
    (nbits & 0x007fffff) as nat
}

/// The numeric value a compact encoding stands for: `mantissa * 256^(E-3)`,
/// where a small exponent shifts the mantissa down instead, and an exponent
/// beyond 32 bytes leaves the whole 32-byte target zero.
pub open spec fn compact_value(nbits: u32) -> nat {
    let e = compact_exponent(nbits);
    let m = compact_mantissa(nbits);
    if e <= 3 {
        m / pow256((3 - e) as nat)
    } else if e <= 32 {
        m * pow256((e - 3) as nat)
    } else {
        0
    }
}

/// Converts compact difficulty bits to a 32-byte big-endian target. A mining
/// hash wins when it is numerically less than this target. Encodings with a
/// set sign bit or a zero mantissa are not treated specially: the sign bit is
/// masked off and the numeric contract above is all that is promised.
pub fn compact_to_target(nbits: u32) -> (target: Vec<u8>)
    ensures
        target@.len() == 32,
        be_val(target@) == compact_value(nbits),
{
    let exponent: u32 = nbits >> 24;
    let mantissa: u32 = nbits & 0x007fffff;
    let mut target = zero_vec(32);
    proof {
        crate::bytes::lemma_be_val_zero(target@);
    }
    if exponent <= 3 {
        // Targets of at most 4 significant bytes: shift the mantissa down and
        // place the remaining 4 bytes at the end of the buffer.
        let shift: u32 = 8 * (3 - exponent);
        let m: u32 = mantissa >> shift;
        target[28] = ((m >> 24) & 0xff) as u8;
        target[29] = ((m >> 16) & 0xff) as u8;
        target[30] = ((m >> 8) & 0xff) as u8;
        target[31] = (m & 0xff) as u8;
        proof {
            assert(m < 0x1000000) by (bit_vector)
                requires m == (nbits & 0x007fffff) >> shift;
            lemma_target_value_low(target@, m);
            assert(mantissa < 0x800000) by (bit_vector)
                requires mantissa == nbits & 0x007fffff;
            assert(m == compact_value(nbits)) by {
                lemma_shift_is_div(mantissa, exponent, shift, m);
            }
        }
    } else if exponent <= 32 {
        // Larger targets: the 3 mantissa bytes sit at offset 32 - E,
        // everything else stays zero.
        let pos: usize = 32 - (exponent as usize);
        target[pos] = ((mantissa >> 16) & 0xff) as u8;
        target[pos + 1] = ((mantissa >> 8) & 0xff) as u8;
        target[pos + 2] = (mantissa & 0xff) as u8;
        proof {
            assert(mantissa < 0x800000) by (bit_vector)
                requires mantissa == nbits & 0x007fffff;
            lemma_target_value_high(target@, pos as int, mantissa);
            assert(29 - pos == compact_exponent(nbits) - 3);
        }
    } else {
        // A placement that would run past the 32-byte buffer is skipped:
        // the target stays zero rather than writing out of bounds.
    }
    target
}

/// The earlier decoder entry point, kept under its historical name. The two
/// historical placement variants are reconciled to the single algorithm of
/// `compact_to_target`, which matches the reference vectors.
pub fn compact_to_target_old(nbits: u32) -> (target: Vec<u8>)
    ensures
        target@.len() == 32,
        be_val(target@) == compact_value(nbits),
{
    compact_to_target(nbits)
}

/// Shifting the masked mantissa right by whole bytes divides it by a power
/// of 256.
proof fn lemma_shift_is_div(mantissa: u32, exponent: u32, shift: u32, m: u32)
    requires
        exponent <= 3,
        mantissa < 0x800000,
        shift == 8 * (3 - exponent),
        m == mantissa >> shift,
    ensures
        m == mantissa as nat / pow256((3 - exponent) as nat),
{
    assert(pow256(0) == 1 && pow256(1) == 256 && pow256(2) == 65536 && pow256(3) == 16777216);
    if exponent == 3 {
        assert(mantissa >> 0u32 == mantissa / 1) by (bit_vector);
    } else if exponent == 2 {
        assert(mantissa >> 8u32 == mantissa / 256) by (bit_vector);
    } else if exponent == 1 {
        assert(mantissa >> 16u32 == mantissa / 65536) by (bit_vector);
    } else {
        assert(mantissa >> 24u32 == mantissa / 16777216) by (bit_vector);
    }
}

/// A 32-byte buffer that is zero except for the 4-byte big-endian value `m`
/// in its last bytes reads back as `m`.
proof fn lemma_target_value_low(t: Seq<u8>, m: u32)
    requires
        t.len() == 32,
        m < 0x1000000,
        forall|i: int| 0 <= i < 28 ==> t[i] == 0,
        t[28] == ((m >> 24) & 0xff) as u8,
        t[29] == ((m >> 16) & 0xff) as u8,
        t[30] == ((m >> 8) & 0xff) as u8,
        t[31] == (m & 0xff) as u8,
    ensures
        be_val(t) == m,
{
    let prefix = t.subrange(0, 28);
    let tail = t.subrange(28, 32);
    assert(t =~= prefix + tail);
    lemma_be_val_concat(prefix, tail);
    assert(all_zero(prefix));
    crate::bytes::lemma_be_val_zero(prefix);
    let b0: u8 = t[28];
    let b1: u8 = t[29];
    let b2: u8 = t[30];
    let b3: u8 = t[31];
    assert(t.subrange(28, 29).drop_last() =~= Seq::<u8>::empty());
    assert(be_val(Seq::<u8>::empty()) == 0);
    assert(be_val(t.subrange(28, 29)) == b0);
    assert(t.subrange(28, 30).drop_last() =~= t.subrange(28, 29));
    assert(be_val(t.subrange(28, 30)) == b0 * 256 + b1);
    assert(t.subrange(28, 31).drop_last() =~= t.subrange(28, 30));
    assert(be_val(t.subrange(28, 31)) == (b0 * 256 + b1) * 256 + b2);
    assert(tail.drop_last() =~= t.subrange(28, 31));
    assert(tail.last() == b3);
    assert(be_val(tail) == ((b0 * 256 + b1) * 256 + b2) * 256 + b3);
    assert(b0 as u32 * 16777216 + b1 as u32 * 65536 + b2 as u32 * 256 + b3 as u32 == m)
        by (bit_vector)
        requires
            m < 0x1000000,
            b0 == ((m >> 24) & 0xff) as u8,
            b1 == ((m >> 16) & 0xff) as u8,
            b2 == ((m >> 8) & 0xff) as u8,
            b3 == (m & 0xff) as u8,
    ;
    assert(be_val(t) == be_val(prefix) * pow256(4) + be_val(tail));
}

/// A 32-byte buffer that is zero except for the 3 mantissa bytes at `pos`
/// reads back as the mantissa shifted up by `29 - pos` bytes.
proof fn lemma_target_value_high(t: Seq<u8>, pos: int, mantissa: u32)
    requires
        t.len() == 32,
        0 <= pos <= 29,
        mantissa < 0x800000,
        forall|i: int| 0 <= i < t.len() && i != pos && i != pos + 1 && i != pos + 2 ==> t[i] == 0,
        t[pos] == ((mantissa >> 16) & 0xff) as u8,
        t[pos + 1] == ((mantissa >> 8) & 0xff) as u8,
        t[pos + 2] == (mantissa & 0xff) as u8,
    ensures
        be_val(t) == mantissa as nat * pow256((29 - pos) as nat),
{
    let prefix = t.subrange(0, pos);
    let mid = t.subrange(pos, pos + 3);
    let tail = t.subrange(pos + 3, 32);
    assert(t =~= (prefix + mid) + tail);
    lemma_be_val_concat(prefix + mid, tail);
    lemma_be_val_concat(prefix, mid);
    assert(all_zero(prefix));
    assert(all_zero(tail));
    crate::bytes::lemma_be_val_zero(prefix);
    crate::bytes::lemma_be_val_zero(tail);
    let b0: u8 = t[pos];
    let b1: u8 = t[pos + 1];
    let b2: u8 = t[pos + 2];
    assert(t.subrange(pos, pos + 1).drop_last() =~= Seq::<u8>::empty());
    assert(be_val(Seq::<u8>::empty()) == 0);
    assert(be_val(t.subrange(pos, pos + 1)) == b0);
    assert(t.subrange(pos, pos + 2).drop_last() =~= t.subrange(pos, pos + 1));
    assert(be_val(t.subrange(pos, pos + 2)) == b0 * 256 + b1);
    assert(mid.drop_last() =~= t.subrange(pos, pos + 2));
    assert(mid.last() == b2);
    assert(be_val(mid) == (b0 * 256 + b1) * 256 + b2);
    assert(b0 as u32 * 65536 + b1 as u32 * 256 + b2 as u32 == mantissa) by (bit_vector)
        requires
            mantissa < 0x800000,
            b0 == ((mantissa >> 16) & 0xff) as u8,
            b1 == ((mantissa >> 8) & 0xff) as u8,
            b2 == (mantissa & 0xff) as u8,
    ;
    assert(be_val(prefix + mid) == be_val(prefix) * pow256(3) + be_val(mid));
    assert(be_val(prefix) * pow256(3) == 0) by (nonlinear_arith)
        requires be_val(prefix) == 0;
    assert(be_val(t) == be_val(mid) * pow256(tail.len()));
    assert(tail.len() == 29 - pos);
}

} // verus!
