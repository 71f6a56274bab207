//! Title-casing of property value names: words joined, each starting upper-case.

use vstd::prelude::*;

use crate::emit::push_chars;
use crate::text::{chars_of, string_of, views};

verus! {

/// The full uppercase mapping of a character (one to three characters).
pub uninterp spec fn uppercase_of(c: char) -> Seq<char>;

/// Relies on `char::to_uppercase`: the uppercase mapping, which depends on the
/// character alone.
#[verifier::external_body]
fn uppercase_chars(c: char) -> (r: Vec<char>)
    ensures
        r@ == uppercase_of(c),
{
    c.to_uppercase().collect()
}

/// The characters with the Unicode White_Space property.
pub open spec fn is_white_space(c: char) -> bool {
    let v = c as u32;
    (0x9 <= v && v <= 0xD) || v == 0x20 || v == 0x85 || v == 0xA0 || v == 0x1680 || (0x2000 <= v
        && v <= 0x200A) || v == 0x2028 || v == 0x2029 || v == 0x202F || v == 0x205F || v == 0x3000
}

/// Whether `c` has the White_Space property.
pub fn is_white_space_char(c: char) -> (r: bool)
    ensures
        r == is_white_space(c),
{
    let v = c as u32;
    (0x9 <= v && v <= 0xD) || v == 0x20 || v == 0x85 || v == 0xA0 || v == 0x1680 || (0x2000 <= v
        && v <= 0x200A) || v == 0x2028 || v == 0x2029 || v == 0x202F || v == 0x205F || v == 0x3000
}

/// A word with its first character upper-cased.
pub open spec fn capitalized(w: Seq<char>) -> Seq<char> {
    if w.len() == 0 {
        Seq::empty()
    } else {
        uppercase_of(w[0]) + w.drop_first()
    }
}

/// The words of `s` (runs of characters without white space), joined with nothing
/// between them, where the first character of each word is replaced by its entry
/// in `u`, which gives an upper-case form for each character of `s`.
pub open spec fn title_cased_by(s: Seq<char>, u: Seq<Seq<char>>) -> Seq<char>
    decreases s.len(),
{
    if s.len() == 0 {
        Seq::empty()
    } else {
        let prev = title_cased_by(s.drop_last(), u.drop_last());
        let c = s.last();
        if is_white_space(c) {
            prev
        } else if s.len() == 1 || is_white_space(s[s.len() - 2]) {
            prev + u.last()
        } else {
            prev.push(c)
        }
    }
}

/// The words of `s` (runs of characters without white space), each capitalized,
/// joined with nothing between them.
pub open spec fn title_cased(s: Seq<char>) -> Seq<char> {
    title_cased_by(s, s.map_values(|c: char| uppercase_of(c)))
}

/// `word` with its first character replaced by `first_upper`, the upper-case form
/// of that character; an empty word stays empty.
pub open spec fn with_first_replaced(first_upper: Seq<char>, w: Seq<char>) -> Seq<char> {
    if w.len() == 0 {
        Seq::empty()
    } else {
        first_upper + w.drop_first()
    }
}

/// `word` with its first character replaced by `first_upper`; an empty word stays empty.
pub fn capitalize_with(first_upper: &Vec<char>, word: &Vec<char>) -> (r: Vec<char>)
    ensures
        r@ == with_first_replaced(first_upper@, word@),
{
    let mut out: Vec<char> = Vec::new();
    if word.len() > 0 {
        push_chars(&mut out, first_upper);
        let mut i: usize = 1;
        while i < word.len()
            invariant
                1 <= i <= word.len(),
                out@ == first_upper@ + word@.subrange(1, i as int),
            decreases word.len() - i,
        {
            out.push(word[i]);
            i = i + 1;
            proof {
                assert(out@ =~= first_upper@ + word@.subrange(1, i as int));
            }
        }
        proof {
            assert(word@.subrange(1, word@.len() as int) =~= word@.drop_first());
        }
    }
    proof {
        assert(out@ =~= with_first_replaced(first_upper@, word@));
    }
    out
}

/// `word` with its first character upper-cased; an empty word stays empty.
pub fn capitalize(word: &str) -> (r: String)
    ensures
        r@ == capitalized(word@),
{
    let w = chars_of(word);
    if w.len() == 0 {
        return string_of(&w);
    }
    let up = uppercase_chars(w[0]);
    let out = capitalize_with(&up, &w);
    string_of(&out)
}

/// The words of `s`, split at white space and joined, where each word's first
/// character is replaced by its entry in `uppers` (one entry per character of `s`).
pub fn title_case_with(s: &Vec<char>, uppers: &Vec<Vec<char>>) -> (r: Vec<char>)
    requires
        uppers@.len() == s@.len(),
    ensures
        r@ == title_cased_by(s@, views(uppers@)),
{
    let ghost u = views(uppers@);
    let mut out: Vec<char> = Vec::new();
    let mut at_start: bool = true;
    let mut i: usize = 0;
    while i < s.len()
        invariant
            i <= s.len(),
            uppers@.len() == s@.len(),
            u == views(uppers@),
            out@ == title_cased_by(s@.subrange(0, i as int), u.subrange(0, i as int)),
            at_start == (i == 0 || is_white_space(s@[i - 1])),
        decreases s.len() - i,
    {
        let ch = s[i];
        proof {
            let t = s@.subrange(0, i as int + 1);
            let tu = u.subrange(0, i as int + 1);
            assert(t.drop_last() =~= s@.subrange(0, i as int));
            assert(tu.drop_last() =~= u.subrange(0, i as int));
            assert(t.last() == ch);
            assert(tu.last() == uppers@[i as int]@);
            if i > 0 {
                assert(t[t.len() - 2] == s@[i - 1]);
            }
        }
        if is_white_space_char(ch) {
            at_start = true;
        } else if at_start {
            push_chars(&mut out, &uppers[i]);
            at_start = false;
        } else {
            out.push(ch);
        }
        i = i + 1;
    }
    proof {
        assert(s@.subrange(0, s@.len() as int) =~= s@);
        assert(u.subrange(0, s@.len() as int) =~= u);
    }
    out
}

/// The words of `s`, split at white space, each capitalized and all joined:
/// `"line feed"` becomes `"LineFeed"`.
pub fn title_case(s: &str) -> (r: String)
    ensures
        r@ == title_cased(s@),
{
    let c = chars_of(s);
    let mut ups: Vec<Vec<char>> = Vec::new();
    let mut i: usize = 0;
    while i < c.len()
        invariant
            i <= c.len(),
            views(ups@) == c@.subrange(0, i as int).map_values(|x: char| uppercase_of(x)),
        decreases c.len() - i,
    {
        let ghost prev = ups@;
        let up = uppercase_chars(c[i]);
        ups.push(up);
        proof {
            assert(views(ups@) =~= views(prev).push(up@));
            assert(c@.subrange(0, i as int + 1).map_values(|x: char| uppercase_of(x))
                =~= c@.subrange(0, i as int).map_values(|x: char| uppercase_of(x)).push(
                uppercase_of(c@[i as int]),
            ));
        }
        i = i + 1;
    }
    proof {
        assert(c@.subrange(0, c@.len() as int) =~= c@);
    }
    let out = title_case_with(&c, &ups);
    string_of(&out)
}

} // verus!
