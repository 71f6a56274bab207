//! From parsed `UnicodeData.txt` entries to compacted property tables.

use std::collections::HashMap;
use vstd::prelude::*;

use crate::codepoint::CODEPOINTS_END;
use crate::compact::{
    assigned, compact_flags, compacted_flags, covered, lemma_compact_flags_ordered,
    lemma_compact_flags_round_trip, maximal_flag_rows, ordered_flag_rows, compacted,
    lemma_compact_round_trip, value_at, compact_values, lemma_compact_maximal, lemma_compact_ordered, maximal_rows,
    ordered_rows, pair_views, row_views, sorted_pairs,
};
use crate::record::{
    entries_match, lemma_latin_capital_a, read_outcome, unicode_data_of, DataView, ReadError,
    UnicodeDataEntry,
};

verus! {

broadcast use vstd::std_specs::hash::group_hash_axioms;

/// Index of the general category among an entry's text fields.
pub const GENERAL_CATEGORY_FIELD: usize = 1;

/// The text fields of each entry, by codepoint.
pub open spec fn data_view(m: Map<u32, UnicodeDataEntry>) -> DataView {
    Map::new(|k: u32| m.contains_key(k), |k: u32| m[k].fields())
}

/// Matching entries have exactly the matched fields as their view.
proof fn lemma_data_view(m: Map<u32, UnicodeDataEntry>, s: DataView)
    requires
        entries_match(m, s),
    ensures
        data_view(m) == s,
{
    assert(data_view(m) =~= s);
}

/// `(codepoint, text of field f)` for each codepoint below `n` that `m` holds, ascending.
pub open spec fn field_assignments(m: DataView, f: int, n: int) -> Seq<(u32, Seq<char>)>
    decreases n,
{
    if n <= 0 {
        Seq::empty()
    } else {
        let p = field_assignments(m, f, n - 1);
        if m.contains_key((n - 1) as u32) {
            p.push(((n - 1) as u32, m[(n - 1) as u32][f]))
        } else {
            p
        }
    }
}

/// Field assignments come in strictly increasing codepoint order, all below `n`.
proof fn lemma_field_assignments_sorted(m: DataView, f: int, n: int)
    requires
        0 <= n <= CODEPOINTS_END,
    ensures
        sorted_pairs(field_assignments(m, f, n)),
        forall|i: int|
            0 <= i < field_assignments(m, f, n).len() ==> #[trigger] field_assignments(m, f, n)[i].0
                < n,
    decreases n,
{
    if n > 0 {
        lemma_field_assignments_sorted(m, f, n - 1);
    }
}

/// `(codepoint, field f)` for every codepoint that `data` holds, ascending.
pub fn field_assignments_of(data: &HashMap<u32, UnicodeDataEntry>, f: usize) -> (r: Vec<(u32, String)>)
    requires
        f < 14,
    ensures
        pair_views(r@) == field_assignments(data_view(data@), f as int, CODEPOINTS_END as int),
{
    let ghost m = data_view(data@);
    let mut r: Vec<(u32, String)> = Vec::new();
    let mut cp: u32 = 0;
    proof {
        assert(pair_views(r@) =~= field_assignments(m, f as int, 0));
    }
    while cp < CODEPOINTS_END
        invariant
            f < 14,
            m == data_view(data@),
            cp <= CODEPOINTS_END,
            pair_views(r@) == field_assignments(m, f as int, cp as int),
        decreases CODEPOINTS_END - cp,
    {
        let ghost prev = r@;
        match data.get(&cp) {
            Some(e) => {
                let v = e.field(f).clone();
                r.push((cp, v));
                proof {
                    assert(pair_views(r@) =~= pair_views(prev).push((cp, v@)));
                }
            },
            None => {},
        }
        cp = cp + 1;
    }
    r
}

/// The compacted table of field `f` over all entries: ordered, maximal, and giving
/// each codepoint the text that its entry holds, and no value where there is none.
pub fn property_table(data: &HashMap<u32, UnicodeDataEntry>, f: usize) -> (r: Vec<(u32, u32, String)>)
    requires
        f < 14,
    ensures
        row_views(r@) == compacted(
            field_assignments(data_view(data@), f as int, CODEPOINTS_END as int),
        ),
        ordered_rows(row_views(r@)),
        maximal_rows(row_views(r@)),
{
    let pairs = field_assignments_of(data, f);
    proof {
        lemma_field_assignments_sorted(data_view(data@), f as int, CODEPOINTS_END as int);
        lemma_compact_ordered(pair_views(pairs@));
        lemma_compact_maximal(pair_views(pairs@));
    }
    compact_values(&pairs)
}

/// The compacted General_Category table of the entries.
pub fn general_category_table(data: &HashMap<u32, UnicodeDataEntry>) -> (r: Vec<(u32, u32, String)>)
    ensures
        row_views(r@) == compacted(
            field_assignments(data_view(data@), GENERAL_CATEGORY_FIELD as int, CODEPOINTS_END as int),
        ),
        ordered_rows(row_views(r@)),
        maximal_rows(row_views(r@)),
{
    property_table(data, GENERAL_CATEGORY_FIELD)
}

/// Field assignments give each codepoint below `n` that `m` holds its field.
proof fn lemma_field_assignments_assigned(m: DataView, f: int, n: int, cp: int)
    requires
        0 <= n <= CODEPOINTS_END,
        0 <= cp <= u32::MAX,
    ensures
        assigned(field_assignments(m, f, n), cp) == if cp < n && m.contains_key(cp as u32) {
            Some(m[cp as u32][f])
        } else {
            None
        },
    decreases n,
{
    if n > 0 {
        lemma_field_assignments_assigned(m, f, n - 1, cp);
        let p = field_assignments(m, f, n - 1);
        if m.contains_key((n - 1) as u32) {
            assert(p.push(((n - 1) as u32, m[(n - 1) as u32][f])).drop_last() =~= p);
        }
    }
}

/// A property table gives each codepoint that the data holds the text of its
/// entry's field, and gives nothing to any other codepoint.
pub proof fn lemma_property_table_round_trip(m: DataView, f: int, cp: u32)
    ensures
        value_at(compacted(field_assignments(m, f, CODEPOINTS_END as int)), cp as int) == if cp
            < CODEPOINTS_END && m.contains_key(cp) {
            Some(m[cp][f])
        } else {
            None
        },
{
    lemma_compact_round_trip(field_assignments(m, f, CODEPOINTS_END as int), cp as int);
    lemma_field_assignments_assigned(m, f, CODEPOINTS_END as int, cp as int);
}

/// `(codepoint, whether field f reads value)` for each codepoint below `n` that `m`
/// holds, ascending.
pub open spec fn field_flags(m: DataView, f: int, value: Seq<char>, n: int) -> Seq<(u32, bool)>
    decreases n,
{
    if n <= 0 {
        Seq::empty()
    } else {
        let p = field_flags(m, f, value, n - 1);
        if m.contains_key((n - 1) as u32) {
            p.push(((n - 1) as u32, m[(n - 1) as u32][f] == value))
        } else {
            p
        }
    }
}

/// Field flags come in strictly increasing codepoint order, all below `n`, and
/// give each codepoint below `n` that `m` holds whether its field reads `value`.
proof fn lemma_field_flags_sorted(m: DataView, f: int, value: Seq<char>, n: int, cp: int)
    requires
        0 <= n <= CODEPOINTS_END,
        0 <= cp <= u32::MAX,
    ensures
        sorted_pairs(field_flags(m, f, value, n)),
        forall|i: int|
            0 <= i < field_flags(m, f, value, n).len() ==> #[trigger] field_flags(m, f, value, n)[i].0
                < n,
        assigned(field_flags(m, f, value, n), cp) == if cp < n && m.contains_key(cp as u32) {
            Some(m[cp as u32][f] == value)
        } else {
            None
        },
    decreases n,
{
    if n > 0 {
        lemma_field_flags_sorted(m, f, value, n - 1, cp);
        let p = field_flags(m, f, value, n - 1);
        if m.contains_key((n - 1) as u32) {
            assert(p.push(((n - 1) as u32, m[(n - 1) as u32][f] == value)).drop_last() =~= p);
        }
    }
}

/// `(codepoint, whether field f reads value)` for every codepoint that `data` holds,
/// ascending.
pub fn field_flags_of(data: &HashMap<u32, UnicodeDataEntry>, f: usize, value: &String) -> (r: Vec<
    (u32, bool),
>)
    requires
        f < 14,
    ensures
        r@ == field_flags(data_view(data@), f as int, value@, CODEPOINTS_END as int),
{
    let ghost m = data_view(data@);
    let mut r: Vec<(u32, bool)> = Vec::new();
    let mut cp: u32 = 0;
    while cp < CODEPOINTS_END
        invariant
            f < 14,
            m == data_view(data@),
            cp <= CODEPOINTS_END,
            r@ == field_flags(m, f as int, value@, cp as int),
        decreases CODEPOINTS_END - cp,
    {
        match data.get(&cp) {
            Some(e) => {
                let b = *e.field(f) == *value;
                r.push((cp, b));
            },
            None => {},
        }
        cp = cp + 1;
    }
    r
}

/// The flag table of the codepoints whose field `f` reads `value`: ordered rows
/// that never touch, covering exactly those codepoints.
pub fn flag_property_table(data: &HashMap<u32, UnicodeDataEntry>, f: usize, value: &String) -> (r:
    Vec<(u32, u32)>)
    requires
        f < 14,
    ensures
        r@ == compacted_flags(
            field_flags(data_view(data@), f as int, value@, CODEPOINTS_END as int),
        ),
        ordered_flag_rows(r@),
        maximal_flag_rows(r@),
{
    let flags = field_flags_of(data, f, value);
    proof {
        lemma_field_flags_sorted(data_view(data@), f as int, value@, CODEPOINTS_END as int, 0);
        lemma_compact_flags_ordered(flags@);
    }
    compact_flags(&flags)
}

/// A flag table made from the data covers a codepoint exactly when the data holds
/// it and its field `f` reads `value`.
pub proof fn lemma_flag_table_round_trip(m: DataView, f: int, value: Seq<char>, cp: u32)
    ensures
        covered(compacted_flags(field_flags(m, f, value, CODEPOINTS_END as int)), cp as int) <==> (
        cp < CODEPOINTS_END && m.contains_key(cp) && m[cp][f] == value),
{
    lemma_field_flags_sorted(m, f, value, CODEPOINTS_END as int, cp as int);
    lemma_compact_flags_round_trip(field_flags(m, f, value, CODEPOINTS_END as int), cp as int);
}

/// Reading a `UnicodeData.txt` text and tabulating field `f` of its entries gives
/// each codepoint the field of the record that the text holds for it, and gives
/// nothing to a codepoint that it holds no record for.
pub proof fn lemma_read_and_tabulate(
    m: Map<u32, UnicodeDataEntry>,
    source: Seq<char>,
    f: int,
    cp: u32,
)
    requires
        read_outcome(source) == Ok::<DataView, ReadError>(unicode_data_of(source)),
        entries_match(m, unicode_data_of(source)),
    ensures
        value_at(compacted(field_assignments(data_view(m), f, CODEPOINTS_END as int)), cp as int)
            == if cp < CODEPOINTS_END && unicode_data_of(source).contains_key(cp) {
            Some(unicode_data_of(source)[cp][f])
        } else {
            None
        },
{
    lemma_data_view(m, unicode_data_of(source));
    lemma_property_table_round_trip(data_view(m), f, cp);
}

/// Reading the record line of LATIN CAPITAL LETTER A and compacting the general
/// categories of what was read gives a table that yields `Lu` at `0x41`.
pub proof fn lemma_latin_capital_a_category(m: Map<u32, UnicodeDataEntry>)
    requires
        read_outcome("0041;LATIN CAPITAL LETTER A;Lu;0;L;;;;;N;;;;;"@) matches Ok(d) && entries_match(
            m,
            d,
        ),
    ensures
        value_at(
            compacted(
                field_assignments(data_view(m), GENERAL_CATEGORY_FIELD as int, CODEPOINTS_END as int),
            ),
            0x41,
        ) == Some("Lu"@),
{
    lemma_latin_capital_a();
    lemma_read_and_tabulate(
        m,
        "0041;LATIN CAPITAL LETTER A;Lu;0;L;;;;;N;;;;;"@,
        GENERAL_CATEGORY_FIELD as int,
        0x41,
    );
}

} // verus!
