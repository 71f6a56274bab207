//! The Unicode codepoint domain and its scalar values.

use vstd::prelude::*;

verus! {

/// One past the largest codepoint, `0x10FFFF`.
pub const CODEPOINTS_END: u32 = 0x110000;

/// First codepoint of the surrogate block.
pub const SURROGATES_START: u32 = 0xD800;

/// One past the last codepoint of the surrogate block.
pub const SURROGATES_END: u32 = 0xE000;

/// A codepoint that is not a surrogate: one that a `char` can hold.
pub open spec fn is_scalar_value(v: int) -> bool {
    (0 <= v < 0xD800) || (0xE000 <= v < 0x110000)
}

/// Relies on `char::from_u32`: `Some` exactly for Unicode scalar values, holding that value.
#[verifier::external_body]
pub(crate) fn char_from_u32(v: u32) -> (r: Option<char>)
    ensures
        r is Some <==> is_scalar_value(v as int),
        r matches Some(c) ==> c as u32 == v,
{
    char::from_u32(v)
}

/// The half-open range of all codepoints, `0 .. 0x110000`.
pub fn valid_codepoint_range() -> (r: std::ops::Range<u32>)
    ensures
        r.start == 0,
        r.end == CODEPOINTS_END,
{
    0..CODEPOINTS_END
}

/// The `i`-th scalar value in ascending order.
pub open spec fn nth_scalar_value(i: int) -> int {
    if i < 0xD800 {
        i
    } else {
        i + 0x800
    }
}

/// The number of Unicode scalar values.
pub const SCALAR_VALUE_COUNT: usize = 0x10F800;

/// All Unicode scalar values in ascending order: `0 .. 0xD800`, then `0xE000 .. 0x110000`.
pub fn iter_all_chars() -> (r: Vec<char>)
    ensures
        r@.len() == SCALAR_VALUE_COUNT,
        forall|i: int| 0 <= i < r@.len() ==> #[trigger] r@[i] as u32 == nth_scalar_value(i),
        forall|i: int|
            0 <= i < r@.len() ==> !(0xD800 <= #[trigger] r@[i] as u32 && r@[i] as u32 <= 0xDFFF),
{
    let mut r: Vec<char> = Vec::new();
    let mut v: u32 = 0;
    while v < CODEPOINTS_END
        invariant
            v <= CODEPOINTS_END,
            v < SURROGATES_START ==> r@.len() == v,
            v >= SURROGATES_START ==> r@.len() + 0x800 == v && v >= SURROGATES_END,
            !(SURROGATES_START <= v && v < SURROGATES_END),
            forall|i: int| 0 <= i < r@.len() ==> #[trigger] r@[i] as u32 == nth_scalar_value(i),
        decreases CODEPOINTS_END - v,
    {
        if let Some(c) = char_from_u32(v) {
            r.push(c);
            proof {
                assert(r@[r@.len() - 1] as u32 == nth_scalar_value(r@.len() - 1));
            }
        }
        v = if v + 1 == SURROGATES_START {
            SURROGATES_END
        } else {
            v + 1
        };
    }
    r
}

} // verus!
