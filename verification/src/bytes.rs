//! Little-endian scalar readers over caller-supplied byte regions.
//!
//! Every table format this crate decodes stores its multi-byte fields
//! little-endian; these helpers give each read an exact mathematical
//! meaning that the table contracts are stated over.

use vstd::prelude::*;

verus! {

/// The 16-bit little-endian value stored at `off`.
pub open spec fn u16_le(s: Seq<u8>, off: int) -> int {
    s[off] + 0x100 * s[off + 1]
}

/// The 32-bit little-endian value stored at `off`.
pub open spec fn u32_le(s: Seq<u8>, off: int) -> int {
    s[off] + 0x100 * s[off + 1] + 0x1_0000 * s[off + 2] + 0x100_0000 * s[off + 3]
}

/// The 64-bit little-endian value stored at `off`.
pub open spec fn u64_le(s: Seq<u8>, off: int) -> int {
    u32_le(s, off) + 0x1_0000_0000 * u32_le(s, off + 4)
}

pub fn read_u16_le(b: &[u8], off: usize) -> (r: u16)
    requires
        off + 2 <= b@.len(),
    ensures
        r as int == u16_le(b@, off as int),
{
    b[off] as u16 + 0x100 * (b[off + 1] as u16)
}

pub fn read_u32_le(b: &[u8], off: usize) -> (r: u32)
    requires
        off + 4 <= b@.len(),
    ensures
        r as int == u32_le(b@, off as int),
{
    b[off] as u32 + 0x100 * (b[off + 1] as u32) + 0x1_0000 * (b[off + 2] as u32) + 0x100_0000
        * (b[off + 3] as u32)
}

/// The little-endian byte image of a 16-bit value.
pub open spec fn u16_le_bytes(x: u16) -> Seq<u8> {
    seq![(x as int % 0x100) as u8, (x as int / 0x100 % 0x100) as u8]
}

/// The little-endian byte image of a 32-bit value.
pub open spec fn u32_le_bytes(x: u32) -> Seq<u8> {
    seq![
        (x as int % 0x100) as u8,
        (x as int / 0x100 % 0x100) as u8,
        (x as int / 0x1_0000 % 0x100) as u8,
        (x as int / 0x100_0000 % 0x100) as u8,
    ]
}

/// The little-endian byte image of a 64-bit value.
pub open spec fn u64_le_bytes(x: u64) -> Seq<u8> {
    u32_le_bytes((x as int % 0x1_0000_0000) as u32) + u32_le_bytes(
        (x as int / 0x1_0000_0000) as u32,
    )
}

/// The 16-bit big-endian value stored at `off`.
pub open spec fn u16_be(s: Seq<u8>, off: int) -> int {
    0x100 * s[off] + s[off + 1]
}

/// The 32-bit big-endian value stored at `off`.
pub open spec fn u32_be(s: Seq<u8>, off: int) -> int {
    0x100_0000 * s[off] + 0x1_0000 * s[off + 1] + 0x100 * s[off + 2] + s[off + 3]
}

/// The big-endian byte image of a 16-bit value.
pub open spec fn u16_be_bytes(x: u16) -> Seq<u8> {
    seq![(x as int / 0x100) as u8, (x as int % 0x100) as u8]
}

/// The big-endian byte image of a 32-bit value.
pub open spec fn u32_be_bytes(x: u32) -> Seq<u8> {
    seq![
        (x as int / 0x100_0000) as u8,
        (x as int / 0x1_0000 % 0x100) as u8,
        (x as int / 0x100 % 0x100) as u8,
        (x as int % 0x100) as u8,
    ]
}

pub fn read_u16_be(b: &[u8], off: usize) -> (r: u16)
    requires
        off + 2 <= b@.len(),
    ensures
        r as int == u16_be(b@, off as int),
{
    0x100 * (b[off] as u16) + b[off + 1] as u16
}

pub fn read_u32_be(b: &[u8], off: usize) -> (r: u32)
    requires
        off + 4 <= b@.len(),
    ensures
        r as int == u32_be(b@, off as int),
{
    0x100_0000 * (b[off] as u32) + 0x1_0000 * (b[off + 1] as u32) + 0x100 * (b[off + 2] as u32) + b[
        off + 3
    ] as u32
}

/// A 16-bit value is recovered from its little-endian image in place.
pub proof fn lemma_u16_le_at(s: Seq<u8>, off: int, x: u16)
    requires
        0 <= off,
        off + 2 <= s.len(),
        s.subrange(off, off + 2) == u16_le_bytes(x),
    ensures
        u16_le(s, off) == x,
{
    assert(s[off] == u16_le_bytes(x)[0]);
    assert(s[off + 1] == u16_le_bytes(x)[1]);
    assert(x as int % 0x100 + 0x100 * (x as int / 0x100 % 0x100) == x) by (nonlinear_arith)
        requires
            0 <= (x as int) < 0x1_0000,
    ;
}

/// A 32-bit value is recovered from its little-endian image in place.
pub proof fn lemma_u32_le_at(s: Seq<u8>, off: int, x: u32)
    requires
        0 <= off,
        off + 4 <= s.len(),
        s.subrange(off, off + 4) == u32_le_bytes(x),
    ensures
        u32_le(s, off) == x,
{
    assert(s[off] == u32_le_bytes(x)[0]);
    assert(s[off + 1] == u32_le_bytes(x)[1]);
    assert(s[off + 2] == u32_le_bytes(x)[2]);
    assert(s[off + 3] == u32_le_bytes(x)[3]);
    assert(x as int % 0x100 + 0x100 * (x as int / 0x100 % 0x100) + 0x1_0000 * (x as int / 0x1_0000
        % 0x100) + 0x100_0000 * (x as int / 0x100_0000 % 0x100) == x) by (nonlinear_arith)
        requires
            0 <= (x as int) < 0x1_0000_0000,
    ;
}

/// Append the two big-endian bytes of `x` to `out`.
pub fn push_u16_be(out: &mut Vec<u8>, x: u16)
    ensures
        final(out)@ == old(out)@ + u16_be_bytes(x),
{
    out.push((x / 0x100) as u8);
    out.push((x % 0x100) as u8);
    assert(final(out)@ =~= old(out)@ + u16_be_bytes(x));
}

/// Append the four big-endian bytes of `x` to `out`.
pub fn push_u32_be(out: &mut Vec<u8>, x: u32)
    ensures
        final(out)@ == old(out)@ + u32_be_bytes(x),
{
    out.push((x / 0x100_0000) as u8);
    out.push((x / 0x1_0000 % 0x100) as u8);
    out.push((x / 0x100 % 0x100) as u8);
    out.push((x % 0x100) as u8);
    assert(final(out)@ =~= old(out)@ + u32_be_bytes(x));
}

/// Append the two little-endian bytes of `x` to `out`.
pub fn push_u16_le(out: &mut Vec<u8>, x: u16)
    ensures
        final(out)@ == old(out)@ + u16_le_bytes(x),
{
    out.push((x % 0x100) as u8);
    out.push((x / 0x100 % 0x100) as u8);
    assert(final(out)@ =~= old(out)@ + u16_le_bytes(x));
}

/// Append the four little-endian bytes of `x` to `out`.
pub fn push_u32_le(out: &mut Vec<u8>, x: u32)
    ensures
        final(out)@ == old(out)@ + u32_le_bytes(x),
{
    out.push((x % 0x100) as u8);
    out.push((x / 0x100 % 0x100) as u8);
    out.push((x / 0x1_0000 % 0x100) as u8);
    out.push((x / 0x100_0000 % 0x100) as u8);
    assert(final(out)@ =~= old(out)@ + u32_le_bytes(x));
}

/// Append the eight little-endian bytes of `x` to `out`.
pub fn push_u64_le(out: &mut Vec<u8>, x: u64)
    ensures
        final(out)@ == old(out)@ + u64_le_bytes(x),
{
    push_u32_le(out, (x % 0x1_0000_0000) as u32);
    push_u32_le(out, (x / 0x1_0000_0000) as u32);
    assert(final(out)@ =~= old(out)@ + u64_le_bytes(x));
}

/// A 16-bit value decoded from two bytes re-encodes to those bytes.
pub proof fn lemma_u16_le_roundtrip(s: Seq<u8>, off: int, x: u16)
    requires
        0 <= off,
        off + 2 <= s.len(),
        x as int == u16_le(s, off),
    ensures
        u16_le_bytes(x) =~= s.subrange(off, off + 2),
{
    let b0 = s[off] as int;
    let b1 = s[off + 1] as int;
    assert(x as int % 0x100 == b0 && x as int / 0x100 % 0x100 == b1) by (nonlinear_arith)
        requires
            x as int == b0 + 0x100 * b1,
            0 <= b0 < 0x100,
            0 <= b1 < 0x100,
    ;
}

/// A 32-bit value decoded from four bytes re-encodes to those bytes.
pub proof fn lemma_u32_le_roundtrip(s: Seq<u8>, off: int, x: u32)
    requires
        0 <= off,
        off + 4 <= s.len(),
        x as int == u32_le(s, off),
    ensures
        u32_le_bytes(x) =~= s.subrange(off, off + 4),
{
    let b0 = s[off] as int;
    let b1 = s[off + 1] as int;
    let b2 = s[off + 2] as int;
    let b3 = s[off + 3] as int;
    assert(x as int % 0x100 == b0 && x as int / 0x100 % 0x100 == b1 && x as int / 0x1_0000 % 0x100
        == b2 && x as int / 0x100_0000 % 0x100 == b3) by (nonlinear_arith)
        requires
            x as int == b0 + 0x100 * b1 + 0x1_0000 * b2 + 0x100_0000 * b3,
            0 <= b0 < 0x100,
            0 <= b1 < 0x100,
            0 <= b2 < 0x100,
            0 <= b3 < 0x100,
    ;
}

/// A 64-bit value decoded from eight bytes re-encodes to those bytes.
pub proof fn lemma_u64_le_roundtrip(s: Seq<u8>, off: int, x: u64)
    requires
        0 <= off,
        off + 8 <= s.len(),
        x as int == u64_le(s, off),
    ensures
        u64_le_bytes(x) =~= s.subrange(off, off + 8),
{
    let lo_i = u32_le(s, off);
    let hi_i = u32_le(s, off + 4);
    assert(0 <= lo_i < 0x1_0000_0000 && 0 <= hi_i < 0x1_0000_0000);
    assert(x as int % 0x1_0000_0000 == lo_i && x as int / 0x1_0000_0000 == hi_i)
        by (nonlinear_arith)
        requires
            x as int == lo_i + 0x1_0000_0000 * hi_i,
            0 <= lo_i < 0x1_0000_0000,
            0 <= hi_i < 0x1_0000_0000,
    ;
    let lo = (x as int % 0x1_0000_0000) as u32;
    let hi = (x as int / 0x1_0000_0000) as u32;
    lemma_u32_le_roundtrip(s, off, lo);
    lemma_u32_le_roundtrip(s, off + 4, hi);
    assert(u64_le_bytes(x) =~= s.subrange(off, off + 4) + s.subrange(off + 4, off + 8));
    assert(s.subrange(off, off + 4) + s.subrange(off + 4, off + 8) =~= s.subrange(off, off + 8));
}

pub fn read_u64_le(b: &[u8], off: usize) -> (r: u64)
    requires
        off + 8 <= b@.len(),
    ensures
        r as int == u64_le(b@, off as int),
{
    let _n: usize = b.len();
    let lo = read_u32_le(b, off);
    let hi = read_u32_le(b, off + 4);
    lo as u64 + 0x1_0000_0000 * (hi as u64)
}

} // verus!
