//! Rendering compacted tables and values as source text that another crate can
//! embed. Every function here appends to a text buffer; writing it out is the
//! caller's business.

use vstd::prelude::*;
use vstd::string::StringExecFns;

use crate::compact::row_views;
use crate::number::{hex_text, push_hex};
use crate::text::{chars_of, string_of, string_views};

verus! {

/// Appends the characters of `s`.
pub fn push_chars(out: &mut Vec<char>, s: &Vec<char>)
    ensures
        final(out)@ == old(out)@ + s@,
{
    let mut i: usize = 0;
    while i < s.len()
        invariant
            i <= s.len(),
            out@ == old(out)@ + s@.subrange(0, i as int),
        decreases s.len() - i,
    {
        out.push(s[i]);
        i = i + 1;
        proof {
            assert(out@ =~= old(out)@ + s@.subrange(0, i as int));
        }
    }
    proof {
        assert(s@.subrange(0, s@.len() as int) =~= s@);
    }
}

/// Appends the characters of `s`.
pub fn push_str(out: &mut Vec<char>, s: &str)
    ensures
        final(out)@ == old(out)@ + s@,
{
    let mut c = chars_of(s);
    out.append(&mut c);
}

/// The banner line that opens every generated file.
pub open spec fn preamble_text(script: Seq<char>) -> Seq<char> {
    "// WARNING: Auto-generated by "@ + script + ". DO NOT EDIT MANUALLY!\n"@
}

/// The banner followed by one value on its own line.
pub open spec fn value_text(script: Seq<char>, value: Seq<char>) -> Seq<char> {
    preamble_text(script) + value + "\n"@
}

/// A character as a `\u{HEX}` escape.
pub open spec fn escape_text(c: char) -> Seq<char> {
    "\\u{"@ + hex_text(c as u32 as nat) + "}"@
}

/// Every character of `s` escaped, in order.
pub open spec fn escaped_text(s: Seq<char>) -> Seq<char>
    decreases s.len(),
{
    if s.len() == 0 {
        Seq::empty()
    } else {
        escaped_text(s.drop_last()) + escape_text(s.last())
    }
}

/// Each string, escaped, after a line break of its own.
pub open spec fn strings_body(ss: Seq<Seq<char>>) -> Seq<char>
    decreases ss.len(),
{
    if ss.len() == 0 {
        Seq::empty()
    } else {
        strings_body(ss.drop_last()) + "\n"@ + escaped_text(ss.last())
    }
}

/// The strings as one backslash-continued string literal.
pub open spec fn strings_literal(ss: Seq<Seq<char>>) -> Seq<char> {
    "\"\\\n"@ + strings_body(ss) + "\\\n\""@
}

/// The rows of a table, each indented and followed by a comma and a line break.
pub open spec fn rows_text(rows: Seq<Seq<char>>) -> Seq<char>
    decreases rows.len(),
{
    if rows.len() == 0 {
        Seq::empty()
    } else {
        rows_text(rows.drop_last()) + "    "@ + rows.last() + ",\n"@
    }
}

/// The banner followed by a slice literal of the rows.
pub open spec fn table_text(script: Seq<char>, rows: Seq<Seq<char>>) -> Seq<char> {
    preamble_text(script) + "&[\n"@ + rows_text(rows) + "]\n"@
}

/// A range row: `(0xSTART,0xEND)`.
pub open spec fn range_row_text(r: (u32, u32)) -> Seq<char> {
    "(0x"@ + hex_text(r.0 as nat) + ",0x"@ + hex_text(r.1 as nat) + ")"@
}

/// A value range row: `(0xSTART,0xEND,"VALUE")`.
pub open spec fn value_range_row_text(r: (u32, u32, Seq<char>)) -> Seq<char> {
    "(0x"@ + hex_text(r.0 as nat) + ",0x"@ + hex_text(r.1 as nat) + ",\""@ + r.2 + "\")"@
}

/// The rows of a flag table, rendered.
pub open spec fn range_rows(t: Seq<(u32, u32)>) -> Seq<Seq<char>> {
    t.map_values(|r: (u32, u32)| range_row_text(r))
}

/// The rows of a value table, rendered.
pub open spec fn value_range_rows(t: Seq<(u32, u32, Seq<char>)>) -> Seq<Seq<char>> {
    t.map_values(|r: (u32, u32, Seq<char>)| value_range_row_text(r))
}

/// The banner naming `script`, as characters.
fn preamble_chars(script: &str) -> (r: Vec<char>)
    ensures
        r@ == preamble_text(script@),
{
    let mut r: Vec<char> = Vec::new();
    push_str(&mut r, "// WARNING: Auto-generated by ");
    push_str(&mut r, script);
    push_str(&mut r, ". DO NOT EDIT MANUALLY!\n");
    proof {
        assert(r@ =~= preamble_text(script@));
    }
    r
}

/// Appends the banner naming the generating `script`.
pub fn emit_preamble(script: &str, output: &mut String)
    ensures
        final(output)@ == old(output)@ + preamble_text(script@),
{
    let p = string_of(&preamble_chars(script));
    output.append(p.as_str());
}

/// Appends the banner and then `value`, already formatted, on a line of its own.
pub fn emit_value(script: &str, output: &mut String, value: &str)
    ensures
        final(output)@ == old(output)@ + value_text(script@, value@),
{
    let mut r = preamble_chars(script);
    push_str(&mut r, value);
    push_str(&mut r, "\n");
    proof {
        assert(r@ =~= value_text(script@, value@));
    }
    let s = string_of(&r);
    output.append(s.as_str());
}

/// Appends the `\u{HEX}` escape of `c`.
pub fn push_escape(out: &mut Vec<char>, c: char)
    ensures
        final(out)@ == old(out)@ + escape_text(c),
{
    push_str(out, "\\u{");
    push_hex(out, c as u32);
    push_str(out, "}");
    proof {
        assert(final(out)@ =~= old(out)@ + escape_text(c));
    }
}

/// Appends the banner and the strings as one escaped, backslash-continued literal.
pub fn emit_strings(script: &str, output: &mut String, strings: &Vec<String>)
    ensures
        final(output)@ == old(output)@ + value_text(script@, strings_literal(string_views(strings@))),
{
    let ghost ss = string_views(strings@);
    let mut body: Vec<char> = Vec::new();
    let mut i: usize = 0;
    proof {
        assert(ss.subrange(0, 0) =~= Seq::<Seq<char>>::empty());
    }
    while i < strings.len()
        invariant
            i <= strings.len(),
            ss == string_views(strings@),
            body@ == strings_body(ss.subrange(0, i as int)),
        decreases strings.len() - i,
    {
        let chars = chars_of(strings[i].as_str());
        let ghost before = body@;
        push_str(&mut body, "\n");
        let mut j: usize = 0;
        proof {
            assert(chars@.subrange(0, 0) =~= Seq::<char>::empty());
        }
        while j < chars.len()
            invariant
                j <= chars.len(),
                body@ == before + "\n"@ + escaped_text(chars@.subrange(0, j as int)),
            decreases chars.len() - j,
        {
            push_escape(&mut body, chars[j]);
            proof {
                let t = chars@.subrange(0, j as int + 1);
                assert(t.drop_last() =~= chars@.subrange(0, j as int));
                assert(body@ =~= before + "\n"@ + escaped_text(t));
            }
            j = j + 1;
        }
        proof {
            assert(chars@.subrange(0, chars@.len() as int) =~= chars@);
            let t = ss.subrange(0, i as int + 1);
            assert(t.drop_last() =~= ss.subrange(0, i as int));
            assert(t.last() == chars@);
        }
        i = i + 1;
    }
    proof {
        assert(ss.subrange(0, strings@.len() as int) =~= ss);
    }
    let mut lit: Vec<char> = Vec::new();
    push_str(&mut lit, "\"\\\n");
    push_chars(&mut lit, &body);
    push_str(&mut lit, "\\\n\"");
    proof {
        assert(lit@ =~= strings_literal(ss));
    }
    let v = string_of(&lit);
    emit_value(script, output, v.as_str());
}

/// Appends the banner and a slice literal with one line per row, in the order given.
pub fn emit_table(script: &str, output: &mut String, rows: &Vec<String>)
    ensures
        final(output)@ == old(output)@ + table_text(script@, string_views(rows@)),
{
    let ghost rs = string_views(rows@);
    let mut r = preamble_chars(script);
    push_str(&mut r, "&[\n");
    let ghost head = r@;
    let mut i: usize = 0;
    proof {
        assert(rs.subrange(0, 0) =~= Seq::<Seq<char>>::empty());
        assert(r@ =~= head + rows_text(rs.subrange(0, 0)));
    }
    while i < rows.len()
        invariant
            i <= rows.len(),
            rs == string_views(rows@),
            r@ == head + rows_text(rs.subrange(0, i as int)),
        decreases rows.len() - i,
    {
        push_str(&mut r, "    ");
        push_str(&mut r, rows[i].as_str());
        push_str(&mut r, ",\n");
        proof {
            let t = rs.subrange(0, i as int + 1);
            assert(t.drop_last() =~= rs.subrange(0, i as int));
            assert(t.last() == rows@[i as int]@);
            assert(r@ =~= head + rows_text(t));
        }
        i = i + 1;
    }
    proof {
        assert(rs.subrange(0, rows@.len() as int) =~= rs);
    }
    push_str(&mut r, "]\n");
    proof {
        assert(r@ =~= table_text(script@, rs));
    }
    let s = string_of(&r);
    output.append(s.as_str());
}

/// Appends the banner and a flag table, one `(0xSTART,0xEND)` row per range.
pub fn emit_range_bsearch_table(script: &str, output: &mut String, data: &Vec<(u32, u32)>)
    ensures
        final(output)@ == old(output)@ + table_text(script@, range_rows(data@)),
{
    let mut rows: Vec<String> = Vec::new();
    let mut i: usize = 0;
    while i < data.len()
        invariant
            i <= data.len(),
            string_views(rows@) == range_rows(data@).subrange(0, i as int),
        decreases data.len() - i,
    {
        let mut row: Vec<char> = Vec::new();
        push_str(&mut row, "(0x");
        push_hex(&mut row, data[i].0);
        push_str(&mut row, ",0x");
        push_hex(&mut row, data[i].1);
        push_str(&mut row, ")");
        proof {
            assert(row@ =~= range_row_text(data@[i as int]));
        }
        let ghost prev = rows@;
        let s = string_of(&row);
        rows.push(s);
        proof {
            assert(string_views(rows@) =~= string_views(prev).push(s@));
            assert(range_rows(data@).subrange(0, i as int + 1) =~= range_rows(data@).subrange(
                0,
                i as int,
            ).push(range_row_text(data@[i as int])));
        }
        i = i + 1;
    }
    proof {
        assert(range_rows(data@).subrange(0, data@.len() as int) =~= range_rows(data@));
    }
    emit_table(script, output, &rows);
}

/// Appends the banner and a value table, one `(0xSTART,0xEND,"VALUE")` row per range.
pub fn emit_value_range_bsearch_table(
    script: &str,
    output: &mut String,
    data: &Vec<(u32, u32, String)>,
)
    ensures
        final(output)@ == old(output)@ + table_text(script@, value_range_rows(row_views(data@))),
{
    let ghost t = row_views(data@);
    let mut rows: Vec<String> = Vec::new();
    let mut i: usize = 0;
    while i < data.len()
        invariant
            i <= data.len(),
            t == row_views(data@),
            string_views(rows@) == value_range_rows(t).subrange(0, i as int),
        decreases data.len() - i,
    {
        let mut row: Vec<char> = Vec::new();
        push_str(&mut row, "(0x");
        push_hex(&mut row, data[i].0);
        push_str(&mut row, ",0x");
        push_hex(&mut row, data[i].1);
        push_str(&mut row, ",\"");
        push_str(&mut row, data[i].2.as_str());
        push_str(&mut row, "\")");
        proof {
            assert(t[i as int] == (data@[i as int].0, data@[i as int].1, data@[i as int].2@));
            assert(row@ =~= value_range_row_text(t[i as int]));
        }
        let ghost prev = rows@;
        let s = string_of(&row);
        rows.push(s);
        proof {
            assert(string_views(rows@) =~= string_views(prev).push(s@));
            assert(value_range_rows(t).subrange(0, i as int + 1) =~= value_range_rows(t).subrange(
                0,
                i as int,
            ).push(value_range_row_text(t[i as int])));
        }
        i = i + 1;
    }
    proof {
        assert(value_range_rows(t).subrange(0, data@.len() as int) =~= value_range_rows(t));
    }
    emit_table(script, output, &rows);
}

/// Emission depends on nothing but its inputs: two value tables that read the same
/// are rendered as the same text, whatever the text they are appended to.
pub proof fn lemma_value_table_text_deterministic(
    script: Seq<char>,
    a: Seq<(u32, u32, String)>,
    b: Seq<(u32, u32, String)>,
)
    requires
        row_views(a) == row_views(b),
    ensures
        table_text(script, value_range_rows(row_views(a))) == table_text(
            script,
            value_range_rows(row_views(b)),
        ),
{
}

/// Two flag tables that are equal are rendered as the same text.
pub proof fn lemma_range_table_text_deterministic(
    script: Seq<char>,
    a: Seq<(u32, u32)>,
    b: Seq<(u32, u32)>,
)
    requires
        a == b,
    ensures
        table_text(script, range_rows(a)) == table_text(script, range_rows(b)),
{
}

} // verus!
