//! Byte sequences read as unsigned integers, and the small executable
//! helpers the miner needs for them: reversal and little-endian comparison.

use vstd::prelude::*;

verus! {

/// `256^e`.
pub open spec fn pow256(e: nat) -> nat
    decreases e,
{
    if e == 0 {
        1
    } else {
        256 * pow256((e - 1) as nat)
    }
}

/// The value of a byte sequence read as a big-endian unsigned integer.
pub open spec fn be_val(s: Seq<u8>) -> nat
    decreases s.len(),
{
    if s.len() == 0 {
        0
    } else {
        (be_val(s.drop_last()) * 256 + s.last()) as nat
    }
}

/// The value of a byte sequence read as a little-endian unsigned integer.
pub open spec fn le_val(s: Seq<u8>) -> nat
    decreases s.len(),
{
    if s.len() == 0 {
        0
    } else {
        (s[0] + 256 * le_val(s.drop_first())) as nat
    }
}

/// Every byte of the sequence is zero.
pub open spec fn all_zero(s: Seq<u8>) -> bool {
    forall|i: int| 0 <= i < s.len() ==> s[i] == 0
}

/// Reading a sequence little-endian is reading its reversal big-endian.
pub proof fn lemma_le_val_reverse(s: Seq<u8>)
    ensures
        le_val(s.reverse()) == be_val(s),
    decreases s.len(),
{
    if s.len() == 0 {
        assert(s.reverse() =~= Seq::<u8>::empty());
    } else {
        assert(s.reverse().drop_first() =~= s.drop_last().reverse());
        lemma_le_val_reverse(s.drop_last());
        assert(s.reverse()[0] == s.last());
    }
}

/// A sequence of zero bytes has value zero, and conversely.
pub proof fn lemma_be_val_zero(s: Seq<u8>)
    ensures
        all_zero(s) <==> be_val(s) == 0,
    decreases s.len(),
{
    if s.len() > 0 {
        lemma_be_val_zero(s.drop_last());
        if all_zero(s) {
            assert(all_zero(s.drop_last()));
        }
        if be_val(s) == 0 {
            assert(be_val(s.drop_last()) == 0);
            assert forall|i: int| 0 <= i < s.len() implies s[i] == 0 by {
                if i < s.len() - 1 {
                    assert(s.drop_last()[i] == 0);
                }
            }
        }
    }
}

/// The little-endian reading of the same fact.
pub proof fn lemma_le_val_zero(s: Seq<u8>)
    ensures
        all_zero(s) <==> le_val(s) == 0,
    decreases s.len(),
{
    if s.len() > 0 {
        lemma_le_val_zero(s.drop_first());
        if all_zero(s) {
            assert(all_zero(s.drop_first()));
        }
        if le_val(s) == 0 {
            assert(le_val(s.drop_first()) == 0);
            assert forall|i: int| 0 <= i < s.len() implies s[i] == 0 by {
                if i > 0 {
                    assert(s.drop_first()[i - 1] == 0);
                }
            }
        }
    }
}

/// Concatenation splits a big-endian value into a shifted high part and a low part.
pub proof fn lemma_be_val_concat(a: Seq<u8>, b: Seq<u8>)
    ensures
        be_val(a + b) == be_val(a) * pow256(b.len()) + be_val(b),
    decreases b.len(),
{
    if b.len() == 0 {
        assert(a + b =~= a);
        assert(pow256(0) == 1);
        assert(be_val(a) * 1 == be_val(a)) by (nonlinear_arith);
    } else {
        assert((a + b).drop_last() =~= a + b.drop_last());
        assert((a + b).last() == b.last());
        lemma_be_val_concat(a, b.drop_last());
        let n = b.len();
        let hi = be_val(a);
        let lo = be_val(b.drop_last());
        let p = pow256((n - 1) as nat);
        assert(pow256(n) == 256 * p);
        assert((hi * p + lo) * 256 == hi * (256 * p) + lo * 256) by (nonlinear_arith);
        assert(be_val(a + b) == (hi * p + lo) * 256 + b.last());
        assert(be_val(b) == lo * 256 + b.last());
    }
}

/// If two equal-length sequences agree above position `i` and differ at `i`,
/// the one with the smaller byte at `i` has the smaller little-endian value.
pub proof fn lemma_le_val_lt(a: Seq<u8>, b: Seq<u8>, i: int)
    requires
        a.len() == b.len(),
        0 <= i < a.len(),
        forall|j: int| i < j < a.len() ==> a[j] == b[j],
        a[i] < b[i],
    ensures
        le_val(a) < le_val(b),
    decreases i,
{
    if i == 0 {
        assert(a.drop_first() =~= b.drop_first());
    } else {
        let a1 = a.drop_first();
        let b1 = b.drop_first();
        assert forall|j: int| i - 1 < j < a1.len() implies a1[j] == b1[j] by {
            assert(a[j + 1] == b[j + 1]);
        }
        lemma_le_val_lt(a1, b1, i - 1);
        assert(a[0] < 256);
        assert(256 * le_val(a1) + 256 <= 256 * le_val(b1)) by (nonlinear_arith)
            requires le_val(a1) < le_val(b1);
    }
}

/// A fresh vector of `n` zero bytes.
pub fn zero_vec(n: usize) -> (v: Vec<u8>)
    ensures
        v@.len() == n,
        all_zero(v@),
{
    let mut v: Vec<u8> = Vec::new();
    let mut i: usize = 0;
    while i < n
        invariant
            i <= n,
            v@.len() == i,
            all_zero(v@),
        decreases n - i,
    {
        v.push(0);
        i = i + 1;
    }
    v
}

/// Reverses the byte order of a vector.
pub fn reverse_bytes(v: &Vec<u8>) -> (r: Vec<u8>)
    ensures
        r@ == v@.reverse(),
{
    let mut r: Vec<u8> = Vec::new();
    let mut i: usize = v.len();
    while i > 0
        invariant
            i <= v@.len(),
            r@.len() == v@.len() - i,
            forall|j: int| 0 <= j < r@.len() ==> r@[j] == v@[v@.len() - 1 - j],
        decreases i,
    {
        i = i - 1;
        let b = v[i];
        r.push(b);
    }
    proof {
        assert(r@ =~= v@.reverse());
    }
    r
}

/// Compares two equal-length byte vectors as little-endian unsigned integers.
pub fn le_bytes_lt(a: &Vec<u8>, b: &Vec<u8>) -> (r: bool)
    requires
        a@.len() == b@.len(),
    ensures
        r == (le_val(a@) < le_val(b@)),
{
    let mut i: usize = a.len();
    while i > 0
        invariant
            i <= a@.len(),
            a@.len() == b@.len(),
            forall|j: int| i <= j < a@.len() ==> a@[j] == b@[j],
        decreases i,
    {
        i = i - 1;
        if a[i] < b[i] {
            proof {
                lemma_le_val_lt(a@, b@, i as int);
            }
            return true;
        }
        if a[i] > b[i] {
            proof {
                lemma_le_val_lt(b@, a@, i as int);
            }
            return false;
        }
    }
    proof {
        assert(a@ =~= b@);
    }
    false
}

} // verus!
