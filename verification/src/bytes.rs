//! Little-endian integer fields of the binary frame format.
//!
//! The frame format stores every multi-byte field little-endian.  The
//! spec functions here give the mathematical value of such a field at a
//! byte offset, and the exec readers are proved against them.

use vstd::prelude::*;

verus! {

/// Value of the 2-byte little-endian field at `off`.
pub open spec fn le16(s: Seq<u8>, off: int) -> int {
    s[off] + 0x100 * s[off + 1]
}

/// Value of the 4-byte little-endian field at `off`.
pub open spec fn le32(s: Seq<u8>, off: int) -> int {
    s[off] + 0x100 * s[off + 1] + 0x1_0000 * s[off + 2] + 0x100_0000 * s[off + 3]
}

/// Value of the 8-byte little-endian field at `off`.
pub open spec fn le64(s: Seq<u8>, off: int) -> int {
    le32(s, off) + 0x1_0000_0000 * le32(s, off + 4)
}

/// A 16-bit value is the sum of its two base-256 digits.
pub proof fn lemma_u16_digits(x: u16)
    by (bit_vector)
    ensures
        x & 0xff < 0x100,
        (x >> 8) & 0xff < 0x100,
        x == (x & 0xff) + 0x100 * ((x >> 8) & 0xff),
{
}

/// A 32-bit value is the sum of its four base-256 digits.
pub proof fn lemma_u32_digits(x: u32)
    by (bit_vector)
    ensures
        x & 0xff < 0x100,
        (x >> 8) & 0xff < 0x100,
        (x >> 16) & 0xff < 0x100,
        (x >> 24) & 0xff < 0x100,
        x == (x & 0xff) + 0x100 * ((x >> 8) & 0xff) + 0x1_0000 * ((x >> 16) & 0xff) + 0x100_0000 * (
        (x >> 24) & 0xff),
{
}

/// A 64-bit value splits into two 32-bit halves.
pub proof fn lemma_u64_halves(x: u64)
    by (bit_vector)
    ensures
        (x & 0xffff_ffff) < 0x1_0000_0000,
        (x >> 32) < 0x1_0000_0000,
        x == (x & 0xffff_ffff) + 0x1_0000_0000 * (x >> 32),
{
}

/// Two byte quadruples with the same little-endian value are equal.
pub proof fn lemma_le32_bytes_unique(
    b0: u8,
    b1: u8,
    b2: u8,
    b3: u8,
    c0: u8,
    c1: u8,
    c2: u8,
    c3: u8,
)
    by (bit_vector)
    requires
        b0 + 0x100 * b1 + 0x1_0000 * b2 + 0x100_0000 * b3 == c0 + 0x100 * c1 + 0x1_0000 * c2
            + 0x100_0000 * c3,
    ensures
        b0 == c0 && b1 == c1 && b2 == c2 && b3 == c3,
{
}

/// Two byte pairs with the same little-endian value are equal.
pub proof fn lemma_le16_bytes_unique(b0: u8, b1: u8, c0: u8, c1: u8)
    by (bit_vector)
    requires
        b0 + 0x100 * b1 == c0 + 0x100 * c1,
    ensures
        b0 == c0 && b1 == c1,
{
}

/// Two byte sequences with the same 8-byte little-endian value agree
/// on both 4-byte halves.
pub proof fn lemma_le64_halves_unique(lo1: int, hi1: int, lo2: int, hi2: int)
    requires
        0 <= lo1 < 0x1_0000_0000,
        0 <= lo2 < 0x1_0000_0000,
        0 <= hi1,
        0 <= hi2,
        lo1 + 0x1_0000_0000 * hi1 == lo2 + 0x1_0000_0000 * hi2,
    ensures
        lo1 == lo2 && hi1 == hi2,
{
    assert(lo1 - lo2 == 0x1_0000_0000 * hi2 - 0x1_0000_0000 * hi1);
    assert(0x1_0000_0000 * (hi2 - hi1) == 0x1_0000_0000 * hi2 - 0x1_0000_0000 * hi1)
        by (nonlinear_arith);
    if hi1 < hi2 {
        assert(0x1_0000_0000 * (hi2 - hi1) >= 0x1_0000_0000) by (nonlinear_arith)
            requires
                hi2 - hi1 >= 1,
        ;
    } else if hi2 < hi1 {
        assert(0x1_0000_0000 * (hi2 - hi1) <= -0x1_0000_0000) by (nonlinear_arith)
            requires
                hi2 - hi1 <= -1,
        ;
    }
}

/// The two little-endian bytes of a 16-bit value.
pub open spec fn le16_bytes(x: u16) -> Seq<u8> {
    seq![(x & 0xff) as u8, ((x >> 8) & 0xff) as u8]
}

/// The four little-endian bytes of a 32-bit value.
pub open spec fn le32_bytes(x: u32) -> Seq<u8> {
    seq![
        (x & 0xff) as u8,
        ((x >> 8) & 0xff) as u8,
        ((x >> 16) & 0xff) as u8,
        ((x >> 24) & 0xff) as u8,
    ]
}

/// The eight little-endian bytes of a 64-bit value.
pub open spec fn le64_bytes(x: u64) -> Seq<u8> {
    le32_bytes((x & 0xffff_ffff) as u32) + le32_bytes((x >> 32) as u32)
}

/// A sequence holding `le16_bytes(x)` at `off` reads back as `x`.
pub proof fn lemma_le16_at(s: Seq<u8>, off: int, x: u16)
    requires
        0 <= off,
        off + 2 <= s.len(),
        s[off] == le16_bytes(x)[0],
        s[off + 1] == le16_bytes(x)[1],
    ensures
        le16(s, off) == x,
{
    lemma_u16_digits(x);
}

/// A sequence holding `le32_bytes(x)` at `off` reads back as `x`.
pub proof fn lemma_le32_at(s: Seq<u8>, off: int, x: u32)
    requires
        0 <= off,
        off + 4 <= s.len(),
        forall|i: int| 0 <= i < 4 ==> s[off + i] == le32_bytes(x)[i],
    ensures
        le32(s, off) == x,
{
    lemma_u32_digits(x);
    assert(s[off] == le32_bytes(x)[0]);
    assert(s[off + 1] == le32_bytes(x)[1]);
    assert(s[off + 2] == le32_bytes(x)[2]);
    assert(s[off + 3] == le32_bytes(x)[3]);
}

/// A sequence holding `le64_bytes(x)` at `off` reads back as `x`.
pub proof fn lemma_le64_at(s: Seq<u8>, off: int, x: u64)
    requires
        0 <= off,
        off + 8 <= s.len(),
        forall|i: int| 0 <= i < 8 ==> s[off + i] == le64_bytes(x)[i],
    ensures
        le64(s, off) == x,
{
    let lo = (x & 0xffff_ffff) as u32;
    let hi = (x >> 32) as u32;
    lemma_u64_halves(x);
    assert forall|i: int| 0 <= i < 4 implies s[off + i] == le32_bytes(lo)[i] by {
        assert(s[off + i] == le64_bytes(x)[i]);
    }
    assert forall|i: int| 0 <= i < 4 implies s[off + 4 + i] == le32_bytes(hi)[i] by {
        assert(s[off + (4 + i)] == le64_bytes(x)[4 + i]);
    }
    lemma_le32_at(s, off, lo);
    lemma_le32_at(s, off + 4, hi);
}

/// Append the two little-endian bytes of `x`.
pub fn push_le16(v: &mut Vec<u8>, x: u16)
    ensures
        final(v)@ == old(v)@ + le16_bytes(x),
{
    v.push((x & 0xff) as u8);
    v.push(((x >> 8) & 0xff) as u8);
    proof {
        assert(v@ =~= old(v)@ + le16_bytes(x));
    }
}

/// Append the four little-endian bytes of `x`.
pub fn push_le32(v: &mut Vec<u8>, x: u32)
    ensures
        final(v)@ == old(v)@ + le32_bytes(x),
{
    v.push((x & 0xff) as u8);
    v.push(((x >> 8) & 0xff) as u8);
    v.push(((x >> 16) & 0xff) as u8);
    v.push(((x >> 24) & 0xff) as u8);
    proof {
        assert(v@ =~= old(v)@ + le32_bytes(x));
    }
}

/// Append the eight little-endian bytes of `x`.
pub fn push_le64(v: &mut Vec<u8>, x: u64)
    ensures
        final(v)@ == old(v)@ + le64_bytes(x),
{
    proof {
        lemma_u64_halves(x);
    }
    push_le32(v, (x & 0xffff_ffff) as u32);
    push_le32(v, (x >> 32) as u32);
    proof {
        assert(v@ =~= old(v)@ + le64_bytes(x));
    }
}

pub fn read_le16(buf: &[u8], off: usize) -> (r: u16)
    requires
        off + 2 <= buf@.len(),
    ensures
        r == le16(buf@, off as int),
{
    let _n = buf.len();
    let b0 = buf[off] as u16;
    let b1 = buf[off + 1] as u16;
    let r = b0 | (b1 << 8);
    proof {
        assert(b0 < 0x100 && b1 < 0x100 ==> (b0 | (b1 << 8)) == b0 + 0x100 * b1)
            by (bit_vector);
    }
    r
}

pub fn read_le32(buf: &[u8], off: usize) -> (r: u32)
    requires
        off + 4 <= buf@.len(),
    ensures
        r == le32(buf@, off as int),
{
    let _n = buf.len();
    let b0 = buf[off] as u32;
    let b1 = buf[off + 1] as u32;
    let b2 = buf[off + 2] as u32;
    let b3 = buf[off + 3] as u32;
    let r = b0 | (b1 << 8) | (b2 << 16) | (b3 << 24);
    proof {
        assert(b0 < 0x100 && b1 < 0x100 && b2 < 0x100 && b3 < 0x100 ==> (b0 | (b1 << 8) | (b2
            << 16) | (b3 << 24)) == b0 + 0x100 * b1 + 0x1_0000 * b2 + 0x100_0000 * b3)
            by (bit_vector);
    }
    r
}

pub fn read_le64(buf: &[u8], off: usize) -> (r: u64)
    requires
        off + 8 <= buf@.len(),
    ensures
        r == le64(buf@, off as int),
{
    let _n = buf.len();
    let lo = read_le32(buf, off) as u64;
    let hi = read_le32(buf, off + 4) as u64;
    let r = lo | (hi << 32);
    proof {
        assert(lo < 0x1_0000_0000 && hi < 0x1_0000_0000 ==> (lo | (hi << 32)) == lo
            + 0x1_0000_0000 * hi) by (bit_vector);
    }
    r
}

} // verus!
