//! UCS-2 conversions for the firmware's wide-string interfaces.

use vstd::prelude::*;
use vstd::string::StrSliceExecFns;

verus! {

/// The UTF-16 code units of one character: itself below 0x10000, a
/// surrogate pair above.
pub open spec fn utf16_of_char(c: char) -> Seq<u16> {
    if (c as int) < 0x10000 {
        seq![(c as int) as u16]
    } else {
        seq![
            (0xD800 + ((c as int) - 0x10000) / 0x400) as u16,
            (0xDC00 + ((c as int) - 0x10000) % 0x400) as u16,
        ]
    }
}

/// The UTF-16 code units of a character sequence, in order.
pub open spec fn utf16_units(s: Seq<char>) -> Seq<u16>
    decreases s.len(),
{
    if s.len() == 0 {
        Seq::<u16>::empty()
    } else {
        utf16_of_char(s[0]) + utf16_units(s.drop_first())
    }
}

/// Encoding one more character appends its units.
proof fn lemma_utf16_units_push(s: Seq<char>, c: char)
    ensures
        utf16_units(s.push(c)) == utf16_units(s) + utf16_of_char(c),
    decreases s.len(),
{
    reveal_with_fuel(utf16_units, 2);
    if s.len() == 0 {
        assert(s.push(c).drop_first() =~= Seq::<char>::empty());
        assert(s.push(c)[0] == c);
        assert(utf16_units(s.push(c)) =~= utf16_units(s) + utf16_of_char(c));
    } else {
        assert(s.push(c).drop_first() =~= s.drop_first().push(c));
        lemma_utf16_units_push(s.drop_first(), c);
        assert(utf16_units(s.push(c)) =~= utf16_units(s) + utf16_of_char(c));
    }
}

/// Encode a string slice's characters as UTF-16 code units.
fn encode_utf16_units(s: &str) -> (r: Vec<u16>)
    ensures
        r@ == utf16_units(s@),
{
    let n = s.unicode_len();
    let mut r: Vec<u16> = Vec::new();
    let mut i: usize = 0;
    while i < n
        invariant
            i <= n,
            n == s@.len(),
            r@ == utf16_units(s@.take(i as int)),
        decreases n - i,
    {
        let c = s.get_char(i);
        let v = c as u32;
        if v < 0x10000 {
            r.push(v as u16);
        } else {
            let w = v - 0x10000;
            r.push(0xD800 + (w / 0x400) as u16);
            r.push(0xDC00 + (w % 0x400) as u16);
        }
        proof {
            assert(s@.take(i as int).push(s@[i as int]) =~= s@.take(i as int + 1));
            lemma_utf16_units_push(s@.take(i as int), s@[i as int]);
            assert(r@ =~= utf16_units(s@.take(i as int + 1)));
        }
        i = i + 1;
    }
    proof {
        assert(s@.take(n as int) =~= s@);
    }
    r
}

/// Convert a string slice to a null-terminated UCS-2 vector.
pub fn str_to_ucs2(s: &str) -> (r: Vec<u16>)
    ensures
        r@ == utf16_units(s@).push(0),
{
    let mut result = encode_utf16_units(s);
    result.push(0);
    result
}

/// Convert an owned string to a null-terminated UCS-2 vector.
pub fn string_to_ucs2(s: String) -> (r: Vec<u16>)
    ensures
        r@ == utf16_units(s@).push(0),
{
    str_to_ucs2(s.as_str())
}

} // verus!
