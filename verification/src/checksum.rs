//! Checksum validation for length-prefixed firmware table regions.
//!
//! A region is considered intact when the unsigned 8-bit sum of its declared
//! bytes wraps around to zero.  Every table locator in this crate runs this
//! validation before trusting any table content.

use vstd::prelude::*;

verus! {

/// Sum of all bytes of a region, as an unbounded integer.
pub open spec fn byte_sum(s: Seq<u8>) -> int
    decreases s.len(),
{
    if s.len() == 0 {
        0
    } else {
        byte_sum(s.drop_last()) + s.last()
    }
}

/// The declared length is within the region and the first `length` bytes
/// sum to zero modulo 256.
pub open spec fn region_checksum_ok(s: Seq<u8>, length: int) -> bool {
    0 <= length <= s.len() && byte_sum(s.take(length)) % 256 == 0
}

proof fn lemma_byte_sum_take_step(s: Seq<u8>, i: int)
    requires
        0 <= i < s.len(),
    ensures
        byte_sum(s.take(i + 1)) == byte_sum(s.take(i)) + s[i],
{
    assert(s.take(i + 1).drop_last() =~= s.take(i));
    assert(s.take(i + 1).last() == s[i]);
}

/// Removing one byte from the sum and adding another shifts the sum by
/// exactly their difference.
proof fn lemma_byte_sum_update(s: Seq<u8>, i: int, v: u8)
    requires
        0 <= i < s.len(),
    ensures
        byte_sum(s.update(i, v)) == byte_sum(s) - s[i] + v,
    decreases s.len(),
{
    if i == s.len() - 1 {
        assert(s.update(i, v).drop_last() =~= s.drop_last());
    } else {
        assert(s.update(i, v).drop_last() =~= s.drop_last().update(i, v));
        lemma_byte_sum_update(s.drop_last(), i, v);
    }
}

/// Report whether the first `length` bytes of `region` sum to zero modulo
/// 256.  When `length` exceeds the region's actual size the check fails
/// closed: it reports invalid without reading past the region.
pub fn validate_region(region: &[u8], length: usize) -> (ok: bool)
    ensures
        ok == region_checksum_ok(region@, length as int),
{
    if length > region.len() {
        return false;
    }
    let mut sum: u8 = 0;
    let mut i: usize = 0;
    while i < length
        invariant
            i <= length <= region@.len(),
            sum as int == byte_sum(region@.take(i as int)) % 256,
        decreases length - i,
    {
        proof {
            lemma_byte_sum_take_step(region@, i as int);
            vstd::arithmetic::div_mod::lemma_add_mod_noop(
                byte_sum(region@.take(i as int)),
                region@[i as int] as int,
                256,
            );
            vstd::arithmetic::div_mod::lemma_small_mod(region@[i as int] as nat, 256);
        }
        sum = sum.wrapping_add(region[i]);
        i = i + 1;
    }
    sum == 0
}

/// Changing any single byte of a region whose sum wraps to zero yields a
/// region whose sum no longer wraps to zero.
pub proof fn lemma_flipped_byte_invalidates(s: Seq<u8>, i: int, v: u8)
    requires
        0 <= i < s.len(),
        v != s[i],
        byte_sum(s) % 256 == 0,
    ensures
        byte_sum(s.update(i, v)) % 256 != 0,
{
    lemma_byte_sum_update(s, i, v);
    let d = v - s[i];
    assert(-255 <= d && d <= 255 && d != 0);
    vstd::arithmetic::div_mod::lemma_add_mod_noop(byte_sum(s), d, 256);
    if d > 0 {
        vstd::arithmetic::div_mod::lemma_small_mod(d as nat, 256);
    } else {
        vstd::arithmetic::div_mod::lemma_mod_add_multiples_vanish(d, 256);
        vstd::arithmetic::div_mod::lemma_small_mod((d + 256) as nat, 256);
    }
}

} // verus!
