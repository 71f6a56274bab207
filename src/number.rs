//! Reading and writing unsigned integers as ASCII digit text.

use vstd::prelude::*;

verus! {

/// The value of a hexadecimal digit (either case), or -1 for any other character.
pub open spec fn hex_digit_value(c: char) -> int {
    if '0' <= c && c <= '9' {
        c as int - '0' as int
    } else if 'A' <= c && c <= 'F' {
        c as int - 'A' as int + 10
    } else if 'a' <= c && c <= 'f' {
        c as int - 'a' as int + 10
    } else {
        -1
    }
}

/// The value of a decimal digit, or -1 for any other character.
pub open spec fn decimal_digit_value(c: char) -> int {
    if '0' <= c && c <= '9' {
        c as int - '0' as int
    } else {
        -1
    }
}

/// A non-empty sequence of hexadecimal digits.
pub open spec fn is_hex(s: Seq<char>) -> bool {
    s.len() > 0 && forall|i: int| 0 <= i < s.len() ==> hex_digit_value(#[trigger] s[i]) >= 0
}

/// A non-empty sequence of decimal digits.
pub open spec fn is_decimal(s: Seq<char>) -> bool {
    s.len() > 0 && forall|i: int| 0 <= i < s.len() ==> decimal_digit_value(#[trigger] s[i]) >= 0
}

/// The number written by hexadecimal digits, most significant first.
pub open spec fn hex_value(s: Seq<char>) -> int
    decreases s.len(),
{
    if s.len() == 0 {
        0
    } else {
        hex_value(s.drop_last()) * 16 + hex_digit_value(s.last())
    }
}

/// The number written by decimal digits, most significant first.
pub open spec fn decimal_value(s: Seq<char>) -> int
    decreases s.len(),
{
    if s.len() == 0 {
        0
    } else {
        decimal_value(s.drop_last()) * 10 + decimal_digit_value(s.last())
    }
}

/// The smaller of two integers.
pub open spec fn min_int(a: int, b: int) -> int {
    if a <= b {
        a
    } else {
        b
    }
}

/// Hexadecimal digits never make a negative value.
proof fn lemma_hex_value_nonneg(s: Seq<char>)
    requires
        forall|i: int| 0 <= i < s.len() ==> hex_digit_value(#[trigger] s[i]) >= 0,
    ensures
        hex_value(s) >= 0,
    decreases s.len(),
{
    if s.len() > 0 {
        lemma_hex_value_nonneg(s.drop_last());
    }
}

/// Decimal digits never make a negative value.
proof fn lemma_decimal_value_nonneg(s: Seq<char>)
    requires
        forall|i: int| 0 <= i < s.len() ==> decimal_digit_value(#[trigger] s[i]) >= 0,
    ensures
        decimal_value(s) >= 0,
    decreases s.len(),
{
    if s.len() > 0 {
        lemma_decimal_value_nonneg(s.drop_last());
    }
}

/// Reads a hexadecimal number, digits only (no sign), that fits in a `u32`; `None`
/// for anything else.
pub fn parse_hex_u32(s: &Vec<char>) -> (r: Option<u32>)
    ensures
        match r {
            Some(v) => is_hex(s@) && hex_value(s@) == v as int,
            None => !is_hex(s@) || hex_value(s@) > u32::MAX as int,
        },
{
    let cap: u64 = 0x1_0000_0000;
    let mut acc: u64 = 0;
    let mut i: usize = 0;
    while i < s.len()
        invariant
            i <= s.len(),
            forall|j: int| 0 <= j < i ==> hex_digit_value(#[trigger] s@[j]) >= 0,
            acc as int == min_int(hex_value(s@.subrange(0, i as int)), cap as int),
            cap == 0x1_0000_0000u64,
        decreases s.len() - i,
    {
        let c = s[i];
        let d: u64 = if '0' <= c && c <= '9' {
            (c as u64) - ('0' as u64)
        } else if 'A' <= c && c <= 'F' {
            (c as u64) - ('A' as u64) + 10
        } else if 'a' <= c && c <= 'f' {
            (c as u64) - ('a' as u64) + 10
        } else {
            proof {
                assert(hex_digit_value(s@[i as int]) < 0);
            }
            return None;
        };
        proof {
            let t = s@.subrange(0, i as int + 1);
            assert(t.drop_last() =~= s@.subrange(0, i as int));
            lemma_hex_value_nonneg(s@.subrange(0, i as int));
        }
        acc = if acc * 16 + d >= cap {
            cap
        } else {
            acc * 16 + d
        };
        i = i + 1;
    }
    proof {
        assert(s@.subrange(0, s@.len() as int) =~= s@);
    }
    if i == 0 || acc >= cap {
        None
    } else {
        Some(acc as u32)
    }
}

/// Reads a decimal number that fits in a `u16`; `None` for anything else.
pub fn parse_decimal_u16(s: &Vec<char>) -> (r: Option<u16>)
    ensures
        match r {
            Some(v) => is_decimal(s@) && decimal_value(s@) == v as int,
            None => !is_decimal(s@) || decimal_value(s@) > u16::MAX as int,
        },
{
    let cap: u32 = 0x1_0000;
    let mut acc: u32 = 0;
    let mut i: usize = 0;
    while i < s.len()
        invariant
            i <= s.len(),
            forall|j: int| 0 <= j < i ==> decimal_digit_value(#[trigger] s@[j]) >= 0,
            acc as int == min_int(decimal_value(s@.subrange(0, i as int)), cap as int),
            cap == 0x1_0000u32,
        decreases s.len() - i,
    {
        let c = s[i];
        if !('0' <= c && c <= '9') {
            proof {
                assert(decimal_digit_value(s@[i as int]) < 0);
            }
            return None;
        }
        let d: u32 = (c as u32) - ('0' as u32);
        proof {
            let t = s@.subrange(0, i as int + 1);
            assert(t.drop_last() =~= s@.subrange(0, i as int));
            lemma_decimal_value_nonneg(s@.subrange(0, i as int));
        }
        acc = if acc * 10 + d >= cap {
            cap
        } else {
            acc * 10 + d
        };
        i = i + 1;
    }
    proof {
        assert(s@.subrange(0, s@.len() as int) =~= s@);
    }
    if i == 0 || acc >= cap {
        None
    } else {
        Some(acc as u16)
    }
}

/// The upper-case hexadecimal digit for `d < 16`.
pub open spec fn hex_digit_char(d: nat) -> char {
    if d < 10 {
        ('0' as nat + d) as char
    } else {
        ('A' as nat + d - 10) as char
    }
}

/// `v` in upper-case hexadecimal without leading zeros (`0` is written "0").
pub open spec fn hex_text(v: nat) -> Seq<char>
    decreases v,
{
    if v < 16 {
        seq![hex_digit_char(v)]
    } else {
        hex_text(v / 16).push(hex_digit_char(v % 16))
    }
}

/// `v` in decimal without leading zeros (`0` is written "0").
pub open spec fn decimal_text(v: nat) -> Seq<char>
    decreases v,
{
    if v < 10 {
        seq![hex_digit_char(v)]
    } else {
        decimal_text(v / 10).push(hex_digit_char(v % 10))
    }
}

/// The upper-case hexadecimal digit for `d`.
fn digit_char(d: u32) -> (c: char)
    requires
        d < 16,
    ensures
        c == hex_digit_char(d as nat),
{
    let digits: Vec<char> = vec!['0', '1', '2', '3', '4', '5', '6', '7', '8', '9', 'A', 'B', 'C', 'D', 'E', 'F'];
    let c = digits[d as usize];
    proof {
        assert(hex_digit_char(d as nat) == digits@[d as int]) by {
            if d < 10 {
            }
        }
    }
    c
}

/// Appends `v` in upper-case hexadecimal.
pub fn push_hex(out: &mut Vec<char>, v: u32)
    ensures
        final(out)@ == old(out)@ + hex_text(v as nat),
    decreases v,
{
    if v >= 16 {
        push_hex(out, v / 16);
    }
    out.push(digit_char(v % 16));
    proof {
        assert(final(out)@ =~= old(out)@ + hex_text(v as nat));
    }
}

/// Appends `v` in decimal.
pub fn push_decimal(out: &mut Vec<char>, v: u32)
    ensures
        final(out)@ == old(out)@ + decimal_text(v as nat),
    decreases v,
{
    if v >= 10 {
        push_decimal(out, v / 10);
    }
    out.push(digit_char(v % 10));
    proof {
        assert(final(out)@ =~= old(out)@ + decimal_text(v as nat));
    }
}

} // verus!
