//! GUID utilities: parsing the canonical textual form and rendering it.

use vstd::prelude::*;

use crate::ffi::Guid;
use vstd::string::{StringExecFns, StringSliceAdditionalSpecFns};

verus! {

/// The byte is an ASCII hexadecimal digit.
pub open spec fn is_hex_digit(b: u8) -> bool {
    (48 <= b <= 57) || (97 <= b <= 102) || (65 <= b <= 70)
}

/// The value of an ASCII hexadecimal digit.
pub open spec fn hex_digit_value(b: u8) -> int {
    if 48 <= b <= 57 {
        b - 48
    } else if 97 <= b <= 102 {
        b - 87
    } else if 65 <= b <= 70 {
        b - 55
    } else {
        0
    }
}

/// The value of the `n` hexadecimal digits that start at `off`, most
/// significant first.
pub open spec fn hex_number(s: Seq<u8>, off: int, n: int) -> int
    decreases n,
{
    if n <= 0 {
        0
    } else {
        hex_number(s, off, n - 1) * 16 + hex_digit_value(s[off + n - 1])
    }
}

/// Sixteen to the power `n`.
spec fn p16(n: nat) -> int
    decreases n,
{
    if n == 0 {
        1
    } else {
        16 * p16((n - 1) as nat)
    }
}

proof fn lemma_p16_bounds(n: nat)
    requires
        n <= 8,
    ensures
        1 <= p16(n) <= 0x1_0000_0000,
    decreases n,
{
    reveal_with_fuel(p16, 9);
    if n > 0 {
        lemma_p16_bounds((n - 1) as nat);
    }
}

/// The digits that start at `off` stay below sixteen to their count.
proof fn lemma_hex_number_bound(s: Seq<u8>, off: int, n: int)
    requires
        n >= 0,
    ensures
        0 <= hex_number(s, off, n) < p16(n as nat),
    decreases n,
{
    if n > 0 {
        lemma_hex_number_bound(s, off, n - 1);
    }
}

/// The value of one ASCII hexadecimal digit, or absent for any other byte.
fn hex_value(b: u8) -> (r: Option<u8>)
    ensures
        match r {
            Some(d) => is_hex_digit(b) && d as int == hex_digit_value(b) && d < 16,
            None => !is_hex_digit(b),
        },
{
    if b >= 48 && b <= 57 {
        Some(b - 48)
    } else if b >= 97 && b <= 102 {
        Some(b - 87)
    } else if b >= 65 && b <= 70 {
        Some(b - 55)
    } else {
        None
    }
}

/// Parse up to eight hexadecimal digits starting at `off`, most
/// significant first.
fn parse_hex(b: &[u8], off: usize, n: usize) -> (r: Option<u64>)
    requires
        off + n <= b@.len(),
        n <= 8,
    ensures
        match r {
            Some(v) => (forall|k: int| off <= k < off + n ==> is_hex_digit(b@[k])) && v as int
                == hex_number(b@, off as int, n as int) && v < 0x1_0000_0000,
            None => !(forall|k: int| off <= k < off + n ==> is_hex_digit(b@[k])),
        },
{
    let len: usize = b.len();
    let mut acc: u64 = 0;
    let mut j: usize = 0;
    while j < n
        invariant
            j <= n <= 8,
            off + n <= len,
            len == b@.len(),
            forall|k: int| off <= k < off + j ==> is_hex_digit(b@[k]),
            acc as int == hex_number(b@, off as int, j as int),
            (acc as int) < p16(j as nat),
        decreases n - j,
    {
        proof {
            lemma_p16_bounds(j as nat);
            lemma_p16_bounds((j + 1) as nat);
        }
        match hex_value(b[off + j]) {
            Some(d) => {
                acc = acc * 16 + d as u64;
            },
            None => {
                return None;
            },
        }
        j = j + 1;
    }
    proof {
        lemma_p16_bounds(n as nat);
    }
    Some(acc)
}

/// The 36 bytes are the canonical textual GUID form: five groups of
/// hexadecimal digits of widths 8, 4, 4, 4 and 12, separated by dashes.
pub open spec fn guid_text_wf(s: Seq<u8>) -> bool {
    &&& s.len() == 36
    &&& s[8] == 45 && s[13] == 45 && s[18] == 45 && s[23] == 45
    &&& forall|k: int|
        0 <= k < 36 && k != 8 && k != 13 && k != 18 && k != 23 ==> is_hex_digit(s[k])
}

impl Guid {
    /// Parse a GUID from its canonical textual form
    /// "XXXXXXXX-XXXX-XXXX-XXXX-XXXXXXXXXXXX", upper or lower case.
    pub fn from_str(s: &str) -> (r: Option<Guid>)
        ensures
            match r {
                Some(g) => {
                    &&& guid_text_wf(s.spec_bytes())
                    &&& g.data1 as int == hex_number(s.spec_bytes(), 0, 8)
                    &&& g.data2 as int == hex_number(s.spec_bytes(), 9, 4)
                    &&& g.data3 as int == hex_number(s.spec_bytes(), 14, 4)
                    &&& g.data4[0] as int == hex_number(s.spec_bytes(), 19, 2)
                    &&& g.data4[1] as int == hex_number(s.spec_bytes(), 21, 2)
                    &&& g.data4[2] as int == hex_number(s.spec_bytes(), 24, 2)
                    &&& g.data4[3] as int == hex_number(s.spec_bytes(), 26, 2)
                    &&& g.data4[4] as int == hex_number(s.spec_bytes(), 28, 2)
                    &&& g.data4[5] as int == hex_number(s.spec_bytes(), 30, 2)
                    &&& g.data4[6] as int == hex_number(s.spec_bytes(), 32, 2)
                    &&& g.data4[7] as int == hex_number(s.spec_bytes(), 34, 2)
                },
                None => !guid_text_wf(s.spec_bytes()),
            },
    {
        let b: &[u8] = s.as_bytes();
        let n: usize = b.len();
        if n != 36 {
            return None;
        }
        if b[8] != 45 || b[13] != 45 || b[18] != 45 || b[23] != 45 {
            return None;
        }
        let data1 = match parse_hex(b, 0, 8) {
            Some(v) => v as u32,
            None => {
                return None;
            },
        };
        let data2 = match parse_hex(b, 9, 4) {
            Some(v) => v as u16,
            None => {
                return None;
            },
        };
        let data3 = match parse_hex(b, 14, 4) {
            Some(v) => v as u16,
            None => {
                return None;
            },
        };
        let t0 = match parse_hex(b, 19, 2) {
            Some(v) => v as u8,
            None => {
                return None;
            },
        };
        let t1 = match parse_hex(b, 21, 2) {
            Some(v) => v as u8,
            None => {
                return None;
            },
        };
        let u0 = match parse_hex(b, 24, 2) {
            Some(v) => v as u8,
            None => {
                return None;
            },
        };
        let u1 = match parse_hex(b, 26, 2) {
            Some(v) => v as u8,
            None => {
                return None;
            },
        };
        let u2 = match parse_hex(b, 28, 2) {
            Some(v) => v as u8,
            None => {
                return None;
            },
        };
        let u3 = match parse_hex(b, 30, 2) {
            Some(v) => v as u8,
            None => {
                return None;
            },
        };
        let u4 = match parse_hex(b, 32, 2) {
            Some(v) => v as u8,
            None => {
                return None;
            },
        };
        let u5 = match parse_hex(b, 34, 2) {
            Some(v) => v as u8,
            None => {
                return None;
            },
        };
        proof {
            lemma_hex_number_bound(b@, 0, 8);
            lemma_hex_number_bound(b@, 9, 4);
            lemma_hex_number_bound(b@, 14, 4);
            lemma_hex_number_bound(b@, 19, 2);
            lemma_hex_number_bound(b@, 21, 2);
            lemma_hex_number_bound(b@, 24, 2);
            lemma_hex_number_bound(b@, 26, 2);
            lemma_hex_number_bound(b@, 28, 2);
            lemma_hex_number_bound(b@, 30, 2);
            lemma_hex_number_bound(b@, 32, 2);
            lemma_hex_number_bound(b@, 34, 2);
            assert(p16(2) == 256 && p16(4) == 0x1_0000 && p16(8) == 0x1_0000_0000) by {
                reveal_with_fuel(p16, 9);
            }
            assert(guid_text_wf(b@));
        }
        Some(Guid { data1, data2, data3, data4: [t0, t1, u0, u1, u2, u3, u4, u5] })
    }

    /// Check if this GUID is null (all zeros)
    pub fn is_null(&self) -> (r: bool)
        ensures
            r == (self.data1 == 0 && self.data2 == 0 && self.data3 == 0 && self.data4
                == [0u8, 0u8, 0u8, 0u8, 0u8, 0u8, 0u8, 0u8]),
    {
        let tail_zero = self.data4[0] == 0 && self.data4[1] == 0 && self.data4[2] == 0
            && self.data4[3] == 0 && self.data4[4] == 0 && self.data4[5] == 0 && self.data4[6] == 0
            && self.data4[7] == 0;
        proof {
            if tail_zero {
                assert(self.data4 =~= [0u8, 0u8, 0u8, 0u8, 0u8, 0u8, 0u8, 0u8]);
            }
        }
        self.data1 == 0 && self.data2 == 0 && self.data3 == 0 && tail_zero
    }

    /// Create a null GUID
    pub fn null() -> (g: Guid)
        ensures
            g == (Guid { data1: 0, data2: 0, data3: 0, data4: [0, 0, 0, 0, 0, 0, 0, 0] }),
    {
        Guid { data1: 0, data2: 0, data3: 0, data4: [0, 0, 0, 0, 0, 0, 0, 0] }
    }

    /// Render this GUID in its canonical upper-case textual form: five
    /// groups of fixed-width hexadecimal digits separated by dashes.
    pub fn to_string(&self) -> (r: String)
        ensures
            r@ == spec_guid_string(*self),
            r@.len() == 36,
    {
        let mut out = String::new();
        append_hex(&mut out, self.data1 as u64, 8);
        append_dash(&mut out);
        append_hex(&mut out, self.data2 as u64, 4);
        append_dash(&mut out);
        append_hex(&mut out, self.data3 as u64, 4);
        append_dash(&mut out);
        append_hex(&mut out, self.data4[0] as u64, 2);
        append_hex(&mut out, self.data4[1] as u64, 2);
        append_dash(&mut out);
        append_hex(&mut out, self.data4[2] as u64, 2);
        append_hex(&mut out, self.data4[3] as u64, 2);
        append_hex(&mut out, self.data4[4] as u64, 2);
        append_hex(&mut out, self.data4[5] as u64, 2);
        append_hex(&mut out, self.data4[6] as u64, 2);
        append_hex(&mut out, self.data4[7] as u64, 2);
        proof {
            assert(out@ =~= spec_guid_string(*self));
            lemma_hex_chars_len(self.data1 as int, 8);
            lemma_hex_chars_len(self.data2 as int, 4);
            lemma_hex_chars_len(self.data3 as int, 4);
            lemma_hex_chars_len(self.data4[0] as int, 2);
            lemma_hex_chars_len(self.data4[1] as int, 2);
            lemma_hex_chars_len(self.data4[2] as int, 2);
            lemma_hex_chars_len(self.data4[3] as int, 2);
            lemma_hex_chars_len(self.data4[4] as int, 2);
            lemma_hex_chars_len(self.data4[5] as int, 2);
            lemma_hex_chars_len(self.data4[6] as int, 2);
            lemma_hex_chars_len(self.data4[7] as int, 2);
        }
        out
    }
}

/// The upper-case hexadecimal digit character of a value below sixteen.
pub open spec fn hex_char(d: int) -> char {
    if d == 0 {
        '0'
    } else if d == 1 {
        '1'
    } else if d == 2 {
        '2'
    } else if d == 3 {
        '3'
    } else if d == 4 {
        '4'
    } else if d == 5 {
        '5'
    } else if d == 6 {
        '6'
    } else if d == 7 {
        '7'
    } else if d == 8 {
        '8'
    } else if d == 9 {
        '9'
    } else if d == 10 {
        'A'
    } else if d == 11 {
        'B'
    } else if d == 12 {
        'C'
    } else if d == 13 {
        'D'
    } else if d == 14 {
        'E'
    } else {
        'F'
    }
}

/// The `n` low hexadecimal digits of a value, most significant first.
pub open spec fn hex_chars(v: int, n: nat) -> Seq<char>
    decreases n,
{
    if n == 0 {
        Seq::<char>::empty()
    } else {
        hex_chars(v / 16, (n - 1) as nat).push(hex_char(v % 16))
    }
}

/// A rendering of `n` digits is `n` characters long.
pub proof fn lemma_hex_chars_len(v: int, n: nat)
    ensures
        hex_chars(v, n).len() == n,
    decreases n,
{
    if n > 0 {
        lemma_hex_chars_len(v / 16, (n - 1) as nat);
    }
}

/// The canonical textual form of a GUID, upper case.
pub open spec fn spec_guid_string(g: Guid) -> Seq<char> {
    hex_chars(g.data1 as int, 8) + seq!['-'] + hex_chars(g.data2 as int, 4) + seq!['-']
        + hex_chars(g.data3 as int, 4) + seq!['-'] + hex_chars(g.data4[0] as int, 2) + hex_chars(
        g.data4[1] as int,
        2,
    ) + seq!['-'] + hex_chars(g.data4[2] as int, 2) + hex_chars(g.data4[3] as int, 2) + hex_chars(
        g.data4[4] as int,
        2,
    ) + hex_chars(g.data4[5] as int, 2) + hex_chars(g.data4[6] as int, 2) + hex_chars(
        g.data4[7] as int,
        2,
    )
}

/// Append one dash.
fn append_dash(out: &mut String)
    ensures
        final(out)@ == old(out)@ + seq!['-'],
{
    proof {
        reveal_strlit("-");
    }
    out.append("-");
    proof {
        assert("-"@ =~= seq!['-']);
        assert(final(out)@ =~= old(out)@ + seq!['-']);
    }
}

/// Append the `digits` low hexadecimal digits of `v`, most significant
/// first, in upper case.
fn append_hex(out: &mut String, v: u64, digits: usize)
    requires
        digits <= 16,
    ensures
        final(out)@ == old(out)@ + hex_chars(v as int, digits as nat),
    decreases digits,
{
    if digits == 0 {
        proof {
            assert(final(out)@ =~= old(out)@ + hex_chars(v as int, 0));
        }
        return;
    }
    append_hex(out, v / 16, digits - 1);
    let d = (v % 16) as u8;
    let piece: &str = if d == 0 {
        "0"
    } else if d == 1 {
        "1"
    } else if d == 2 {
        "2"
    } else if d == 3 {
        "3"
    } else if d == 4 {
        "4"
    } else if d == 5 {
        "5"
    } else if d == 6 {
        "6"
    } else if d == 7 {
        "7"
    } else if d == 8 {
        "8"
    } else if d == 9 {
        "9"
    } else if d == 10 {
        "A"
    } else if d == 11 {
        "B"
    } else if d == 12 {
        "C"
    } else if d == 13 {
        "D"
    } else if d == 14 {
        "E"
    } else {
        "F"
    };
    proof {
        reveal_strlit("0");
        reveal_strlit("1");
        reveal_strlit("2");
        reveal_strlit("3");
        reveal_strlit("4");
        reveal_strlit("5");
        reveal_strlit("6");
        reveal_strlit("7");
        reveal_strlit("8");
        reveal_strlit("9");
        reveal_strlit("A");
        reveal_strlit("B");
        reveal_strlit("C");
        reveal_strlit("D");
        reveal_strlit("E");
        reveal_strlit("F");
        assert(piece@ =~= seq![hex_char(v as int % 16)]);
    }
    out.append(piece);
    proof {
        assert(final(out)@ =~= old(out)@ + hex_chars(v as int, digits as nat));
    }
}

} // verus!
