//! Reading `UnicodeData.txt`: one record per line, fifteen `;`-separated fields,
//! with large blocks given as a pair of `First>` / `Last>` records.

use std::collections::HashMap;
use vstd::prelude::*;

use crate::codepoint::{char_from_u32, is_scalar_value};
use crate::number::{hex_digit_value, hex_value, is_hex, parse_hex_u32};
use crate::text::{
    chars_of, ends_with, has_suffix, split_chars, split_on, string_views, strip_cr, to_strings,
    views, without_cr,
};

verus! {

broadcast use vstd::std_specs::hash::group_hash_axioms;

/// One record of `UnicodeData.txt`. Every field but the codepoint is kept as raw text.
#[derive(Clone, Debug, PartialEq, Eq, Hash, PartialOrd, Ord)]
pub struct UnicodeDataEntry {
    pub codepoint: u32,
    pub name: String,
    pub general_category: String,
    pub canonical_combining_class: String,
    pub bidi_class: String,
    pub decomposition: String,
    pub deci: String,
    pub digit: String,
    pub num: String,
    pub bidi_mirrored: String,
    pub unicode_1_name: String,
    pub iso_comment: String,
    pub simple_uppercase_mapping: String,
    pub simple_lowercase_mapping: String,
    pub simple_titlecase_mapping: String,
}

/// Number of `;`-separated fields in a record.
pub const FIELD_COUNT: usize = 15;

/// What an entry made of these fields holds: the codepoint and the fourteen text
/// fields after it (fields past the fifteenth are ignored), or `None` where there
/// are fewer than fifteen or the first is not a hexadecimal number that fits in a
/// `u32`.
pub open spec fn entry_of(f: Seq<Seq<char>>) -> Option<(u32, Seq<Seq<char>>)> {
    if f.len() >= FIELD_COUNT && is_hex(f[0]) && hex_value(f[0]) <= u32::MAX {
        Some((hex_value(f[0]) as u32, f.subrange(1, FIELD_COUNT as int)))
    } else {
        None
    }
}

/// What a record line holds, given its fields: as [`entry_of`], but only for a
/// line with exactly fifteen fields; any other line is no record.
pub open spec fn record_of(f: Seq<Seq<char>>) -> Option<(u32, Seq<Seq<char>>)> {
    if f.len() == FIELD_COUNT {
        entry_of(f)
    } else {
        None
    }
}

impl UnicodeDataEntry {
    /// The fourteen text fields, from the name to the simple titlecase mapping.
    pub open spec fn fields(&self) -> Seq<Seq<char>> {
        seq![
            self.name@,
            self.general_category@,
            self.canonical_combining_class@,
            self.bidi_class@,
            self.decomposition@,
            self.deci@,
            self.digit@,
            self.num@,
            self.bidi_mirrored@,
            self.unicode_1_name@,
            self.iso_comment@,
            self.simple_uppercase_mapping@,
            self.simple_lowercase_mapping@,
            self.simple_titlecase_mapping@,
        ]
    }

    /// Builds an entry from the first fifteen fields of a line; any further fields
    /// are ignored. There must be at least fifteen, the first a hexadecimal number
    /// that fits in a `u32`.
    pub fn from(fields: Vec<String>) -> (r: Self)
        requires
            entry_of(string_views(fields@)) is Some,
        ensures
            ({
                let rec = entry_of(string_views(fields@))->0;
                r.codepoint == rec.0 && r.fields() == rec.1
            }),
    {
        let head = chars_of(fields[0].as_str());
        let cp: u32 = match parse_hex_u32(&head) {
            Some(v) => v,
            None => {
                proof {
                    assert(false);
                }
                0
            },
        };
        {
            {
                let e = UnicodeDataEntry {
                    codepoint: cp,
                    name: fields[1].clone(),
                    general_category: fields[2].clone(),
                    canonical_combining_class: fields[3].clone(),
                    bidi_class: fields[4].clone(),
                    decomposition: fields[5].clone(),
                    deci: fields[6].clone(),
                    digit: fields[7].clone(),
                    num: fields[8].clone(),
                    bidi_mirrored: fields[9].clone(),
                    unicode_1_name: fields[10].clone(),
                    iso_comment: fields[11].clone(),
                    simple_uppercase_mapping: fields[12].clone(),
                    simple_lowercase_mapping: fields[13].clone(),
                    simple_titlecase_mapping: fields[14].clone(),
                };
                proof {
                    assert(e.fields() =~= string_views(fields@).subrange(1, FIELD_COUNT as int));
                }
                e
            }
        }
    }

    /// Text field `i` of [`Self::fields`]: 0 is the name, 1 the general category,
    /// up to 13, the simple titlecase mapping.
    pub fn field(&self, i: usize) -> (r: &String)
        requires
            i < 14,
        ensures
            r@ == self.fields()[i as int],
    {
        match i {
            0 => &self.name,
            1 => &self.general_category,
            2 => &self.canonical_combining_class,
            3 => &self.bidi_class,
            4 => &self.decomposition,
            5 => &self.deci,
            6 => &self.digit,
            7 => &self.num,
            8 => &self.bidi_mirrored,
            9 => &self.unicode_1_name,
            10 => &self.iso_comment,
            11 => &self.simple_uppercase_mapping,
            12 => &self.simple_lowercase_mapping,
            _ => &self.simple_titlecase_mapping,
        }
    }

    /// A copy of this entry for codepoint `cp`, with the name left empty: a member
    /// of a block given by a `First>` / `Last>` pair.
    pub fn block_member(&self, cp: u32) -> (r: Self)
        ensures
            r.codepoint == cp,
            r.fields() == blank_name(self.fields()),
    {
        let r = UnicodeDataEntry {
            codepoint: cp,
            name: String::new(),
            general_category: self.general_category.clone(),
            canonical_combining_class: self.canonical_combining_class.clone(),
            bidi_class: self.bidi_class.clone(),
            decomposition: self.decomposition.clone(),
            deci: self.deci.clone(),
            digit: self.digit.clone(),
            num: self.num.clone(),
            bidi_mirrored: self.bidi_mirrored.clone(),
            unicode_1_name: self.unicode_1_name.clone(),
            iso_comment: self.iso_comment.clone(),
            simple_uppercase_mapping: self.simple_uppercase_mapping.clone(),
            simple_lowercase_mapping: self.simple_lowercase_mapping.clone(),
            simple_titlecase_mapping: self.simple_titlecase_mapping.clone(),
        };
        proof {
            assert(r.fields() =~= blank_name(self.fields()));
        }
        r
    }
}

/// The name suffix that opens a block: `", First>"`.
pub open spec fn first_marker() -> Seq<char> {
    seq![',', ' ', 'F', 'i', 'r', 's', 't', '>']
}

/// The name suffix that closes a block: `", Last>"`.
pub open spec fn last_marker() -> Seq<char> {
    seq![',', ' ', 'L', 'a', 's', 't', '>']
}

/// Fields with the name emptied.
pub open spec fn blank_name(f: Seq<Seq<char>>) -> Seq<Seq<char>> {
    f.update(0, Seq::<char>::empty())
}

/// Parsed data so far: fields by codepoint.
pub type DataView = Map<u32, Seq<Seq<char>>>;

/// Whether `k` is a member of the block `start ..= end`: a scalar value in that
/// range. Surrogates are never members.
pub open spec fn in_block(start: u32, end: u32, k: u32) -> bool {
    start <= k && k <= end && is_scalar_value(k as int)
}

/// `m` with `f` at every member of the block `start ..= end` (none where
/// `start > end`).
pub open spec fn fill_block(m: DataView, start: u32, end: u32, f: Seq<Seq<char>>) -> DataView {
    Map::new(
        |k: u32| m.contains_key(k) || in_block(start, end, k),
        |k: u32|
            if in_block(start, end, k) {
                f
            } else {
                m[k]
            },
    )
}

/// `m` with `f` at every scalar value of `start .. k`.
pub open spec fn fill_prefix(m: DataView, start: u32, k: u32, f: Seq<Seq<char>>) -> DataView {
    Map::new(
        |x: u32| m.contains_key(x) || (start <= x && x < k && is_scalar_value(x as int)),
        |x: u32|
            if start <= x && x < k && is_scalar_value(x as int) {
                f
            } else {
                m[x]
            },
    )
}

/// Why a `UnicodeData.txt` text was refused: its block records do not pair up.
#[derive(Clone, Copy, Debug, PartialEq, Eq, Structural, Hash)]
pub enum ReadError {
    /// The block opened at this codepoint is followed by a record not named
    /// `..., Last>`.
    UnmatchedFirst(u32),
    /// The block opened at the first codepoint is closed at the second, which is
    /// below it.
    ReversedBlock(u32, u32),
    /// The text ends while the block opened at this codepoint is still open.
    UnclosedBlock(u32),
}

/// The reader's state: the data so far, the start of an open block, and the error
/// met, if any.
pub type ReadState = (DataView, Option<u32>, Option<ReadError>);

/// One line's effect on the reader's state. After an error nothing changes. A line
/// that is no record, or names a surrogate, changes nothing. While a block is open,
/// the next record must be named `..., Last>` and must not lie below the block's
/// start; it closes the block, and each scalar value from the start through its own
/// codepoint gets its fields with the name emptied. Otherwise a record named
/// `..., First>` opens a block, and any other record is stored under its codepoint.
pub open spec fn read_step(st: ReadState, line: Seq<char>) -> ReadState {
    if st.2 is Some {
        st
    } else {
        match line_record(line) {
            None => st,
            Some(rec) => {
                let cp = rec.0;
                let f = rec.1;
                if !is_scalar_value(cp as int) {
                    st
                } else if st.1 is Some {
                    let start = st.1->0;
                    if !ends_with(f[0], last_marker()) {
                        (st.0, st.1, Some(ReadError::UnmatchedFirst(start)))
                    } else if cp < start {
                        (st.0, st.1, Some(ReadError::ReversedBlock(start, cp)))
                    } else {
                        (fill_block(st.0, start, cp, blank_name(f)), None, None)
                    }
                } else if ends_with(f[0], first_marker()) {
                    (st.0, Some(cp), None)
                } else {
                    (st.0.insert(cp, f), None, None)
                }
            },
        }
    }
}

/// The state in which reading starts.
pub open spec fn initial_state() -> ReadState {
    (Map::empty(), None, None)
}

/// The reader's state after the given lines, in order.
pub open spec fn read_lines(lines: Seq<Seq<char>>) -> ReadState
    decreases lines.len(),
{
    if lines.len() == 0 {
        initial_state()
    } else {
        read_step(read_lines(lines.drop_last()), lines.last())
    }
}

/// The data that a `UnicodeData.txt` text describes, by codepoint, as far as it
/// could be read.
pub open spec fn unicode_data_of(source: Seq<char>) -> DataView {
    read_lines(split_on(source, '\n')).0
}

/// What reading a `UnicodeData.txt` text gives: the error met, or an error for a
/// block still open at the end, or else the data, by codepoint.
pub open spec fn read_outcome(source: Seq<char>) -> Result<DataView, ReadError> {
    let st = read_lines(split_on(source, '\n'));
    if st.2 is Some {
        Err(st.2->0)
    } else if st.1 is Some {
        Err(ReadError::UnclosedBlock(st.1->0))
    } else {
        Ok(st.0)
    }
}

/// Once an error is met, it is the error of every longer prefix.
proof fn lemma_error_persists(lines: Seq<Seq<char>>, i: int)
    requires
        0 <= i <= lines.len(),
        read_lines(lines.subrange(0, i)).2 is Some,
    ensures
        read_lines(lines) == read_lines(lines.subrange(0, i)),
    decreases lines.len() - i,
{
    if i < lines.len() {
        let t = lines.subrange(0, i + 1);
        assert(t.drop_last() =~= lines.subrange(0, i));
        lemma_error_persists(lines, i + 1);
    } else {
        assert(lines.subrange(0, i) =~= lines);
    }
}

/// `m` holds, under each codepoint of `s`, an entry for that codepoint with those fields.
pub open spec fn entries_match(m: Map<u32, UnicodeDataEntry>, s: DataView) -> bool {
    &&& m.dom() == s.dom()
    &&& forall|k: u32| #[trigger] m.contains_key(k) ==> m[k].codepoint == k && m[k].fields() == s[k]
}

/// Storing an entry under its own codepoint keeps the map matched to its view.
proof fn lemma_insert_matches(m: Map<u32, UnicodeDataEntry>, s: DataView, e: UnicodeDataEntry)
    requires
        entries_match(m, s),
    ensures
        entries_match(m.insert(e.codepoint, e), s.insert(e.codepoint, e.fields())),
{
    assert(m.insert(e.codepoint, e).dom() =~= s.insert(e.codepoint, e.fields()).dom());
}

/// Stores the members of the block that `start` opened and `last` closes,
/// leaving out surrogates.
fn fill_entries(
    data: &mut HashMap<u32, UnicodeDataEntry>,
    start: u32,
    last: &UnicodeDataEntry,
    Ghost(s): Ghost<DataView>,
)
    requires
        entries_match(old(data)@, s),
        last.codepoint < 0x110000,
    ensures
        entries_match(final(data)@, fill_block(s, start, last.codepoint, blank_name(last.fields()))),
{
    let end = last.codepoint;
    let ghost f = blank_name(last.fields());
    let mut k: u32 = start;
    proof {
        assert(fill_prefix(s, start, k, f) =~= s);
    }
    while k <= end
        invariant
            start <= k,
            k == start || k <= end + 1,
            end == last.codepoint,
            end < 0x110000,
            f == blank_name(last.fields()),
            entries_match(data@, fill_prefix(s, start, k, f)),
        decreases end + 1 - k,
    {
        if char_from_u32(k).is_some() {
            let e = last.block_member(k);
            proof {
                lemma_insert_matches(data@, fill_prefix(s, start, k, f), e);
            }
            data.insert(k, e);
            proof {
                assert(fill_prefix(s, start, k, f).insert(k, f) =~= fill_prefix(
                    s,
                    start,
                    (k + 1) as u32,
                    f,
                ));
            }
        } else {
            proof {
                assert(fill_prefix(s, start, k, f) =~= fill_prefix(s, start, (k + 1) as u32, f));
            }
        }
        k = k + 1;
    }
    proof {
        assert(fill_prefix(s, start, k, f) =~= fill_block(s, start, end, f));
    }
}

/// Parses the text of `UnicodeData.txt` into entries keyed by codepoint.
///
/// Lines without exactly fifteen fields, or without a hexadecimal codepoint, are
/// skipped, as are surrogates. A `..., First>` record and the `..., Last>` record
/// after it stand for every scalar value between them, each stored with an empty
/// name. A block opener followed by any other record, a block closed below its
/// start, or a block left open at the end is an error. No key of the result is a
/// surrogate or lies past `0x10FFFF`.
pub fn read_unicode_data(source: &str) -> (r: Result<HashMap<u32, UnicodeDataEntry>, ReadError>)
    ensures
        match read_outcome(source@) {
            Ok(m) => r matches Ok(d) && entries_match(d@, m) && forall|k: u32|
                #[trigger] d@.contains_key(k) ==> is_scalar_value(k as int),
            Err(e) => r == Err::<HashMap<u32, UnicodeDataEntry>, ReadError>(e),
        },
{
    let chars = chars_of(source);
    let lines = split_chars(&chars, '\n');
    let first: Vec<char> = vec![',', ' ', 'F', 'i', 'r', 's', 't', '>'];
    let last: Vec<char> = vec![',', ' ', 'L', 'a', 's', 't', '>'];
    let mut data: HashMap<u32, UnicodeDataEntry> = HashMap::new();
    let mut pending: Option<u32> = None;
    let mut i: usize = 0;
    proof {
        assert(views(lines@).subrange(0, 0) =~= Seq::<Seq<char>>::empty());
        assert(data@ =~= Map::<u32, UnicodeDataEntry>::empty());
        assert(data@.dom() =~= Map::<u32, Seq<Seq<char>>>::empty().dom());
    }
    while i < lines.len()
        invariant
            i <= lines.len(),
            views(lines@) == split_on(source@, '\n'),
            first@ == first_marker(),
            last@ == last_marker(),
            entries_match(data@, read_lines(views(lines@).subrange(0, i as int)).0),
            pending == read_lines(views(lines@).subrange(0, i as int)).1,
            read_lines(views(lines@).subrange(0, i as int)).2 is None,
        decreases lines.len() - i,
    {
        let ghost before = read_lines(views(lines@).subrange(0, i as int));
        let ghost after = read_lines(views(lines@).subrange(0, i as int + 1));
        proof {
            let t = views(lines@).subrange(0, i as int + 1);
            assert(t.drop_last() =~= views(lines@).subrange(0, i as int));
            assert(t.last() == lines@[i as int]@);
        }
        let line = without_cr(&lines[i]);
        let pieces = split_chars(&line, ';');
        if pieces.len() == FIELD_COUNT {
            if let Some(cp) = parse_hex_u32(&pieces[0]) {
                if char_from_u32(cp).is_some() {
                    let strings = to_strings(&pieces);
                    let entry = UnicodeDataEntry::from(strings);
                    match pending {
                        Some(start) => {
                            if !has_suffix(&pieces[1], &last) {
                                proof {
                                    lemma_error_persists(views(lines@), i as int + 1);
                                    assert(views(lines@).subrange(0, lines@.len() as int)
                                        =~= views(lines@));
                                }
                                return Err(ReadError::UnmatchedFirst(start));
                            }
                            if cp < start {
                                proof {
                                    lemma_error_persists(views(lines@), i as int + 1);
                                }
                                return Err(ReadError::ReversedBlock(start, cp));
                            }
                            fill_entries(&mut data, start, &entry, Ghost(before.0));
                            pending = None;
                        },
                        None => {
                            if has_suffix(&pieces[1], &first) {
                                pending = Some(cp);
                            } else {
                                proof {
                                    lemma_insert_matches(data@, before.0, entry);
                                }
                                data.insert(cp, entry);
                            }
                        },
                    }
                }
            }
        }
        i = i + 1;
    }
    proof {
        assert(views(lines@).subrange(0, lines.len() as int) =~= views(lines@));
        lemma_read_lines_scalar(views(lines@));
    }
    match pending {
        Some(start) => Err(ReadError::UnclosedBlock(start)),
        None => Ok(data),
    }
}

/// Every codepoint that the reader stores is a scalar value.
pub proof fn lemma_read_lines_scalar(lines: Seq<Seq<char>>)
    ensures
        forall|k: u32| #[trigger] read_lines(lines).0.contains_key(k) ==> is_scalar_value(k as int),
    decreases lines.len(),
{
    if lines.len() > 0 {
        let prev = read_lines(lines.drop_last());
        lemma_read_lines_scalar(lines.drop_last());
        assert forall|k: u32| #[trigger] read_lines(lines).0.contains_key(k) implies is_scalar_value(
            k as int,
        ) by {
            if !prev.0.contains_key(k) {
                match line_record(lines.last()) {
                    None => {},
                    Some(rec) => {
                        if prev.1 is Some && is_scalar_value(rec.0 as int) {
                            assert(in_block(prev.1->0, rec.0, k));
                        }
                    },
                }
            }
        }
    }
}

/// What one line of the file holds, if it is a record.
pub open spec fn line_record(line: Seq<char>) -> Option<(u32, Seq<Seq<char>>)> {
    record_of(split_on(strip_cr(line), ';'))
}

/// A `..., First>` record at `x` followed directly by a record at `y`, read with no
/// block open and no error met: where the second record is not named `..., Last>`
/// the block is unmatched, where `y < x` it is reversed, and otherwise exactly the
/// scalar values of `x ..= y` are stored, each with the second record's fields and
/// an empty name, and every other codepoint is left as it was.
pub proof fn lemma_block_expansion(data: DataView, first: Seq<char>, last: Seq<char>)
    requires
        line_record(first) matches Some(a) && is_scalar_value(a.0 as int) && ends_with(
            a.1[0],
            first_marker(),
        ),
        line_record(last) matches Some(b) && is_scalar_value(b.0 as int),
    ensures
        ({
            let a = line_record(first)->0;
            let b = line_record(last)->0;
            let after = read_step(read_step((data, None, None), first), last);
            if !ends_with(b.1[0], last_marker()) {
                after == (data, Some(a.0), Some(ReadError::UnmatchedFirst(a.0)))
            } else if b.0 < a.0 {
                after == (data, Some(a.0), Some(ReadError::ReversedBlock(a.0, b.0)))
            } else {
                &&& after.1 is None
                &&& after.2 is None
                &&& forall|k: u32|
                    in_block(a.0, b.0, k) ==> #[trigger] after.0.contains_key(k) && after.0[k]
                        == blank_name(b.1) && after.0[k][0] == Seq::<char>::empty()
                &&& forall|k: u32|
                    !in_block(a.0, b.0, k) ==> (#[trigger] after.0.contains_key(k)
                        == data.contains_key(k) && (data.contains_key(k) ==> after.0[k] == data[k]))
                &&& after.0.dom() == data.dom().union(Set::new(|k: u32| in_block(a.0, b.0, k)))
            }
        }),
{
    let a = line_record(first)->0;
    let b = line_record(last)->0;
    let after = read_step(read_step((data, None, None), first), last);
    assert(read_step((data, None, None), first) == (data, Some(a.0), None::<ReadError>));
    if ends_with(b.1[0], last_marker()) && a.0 <= b.0 {
        assert(after.0.dom() =~= data.dom().union(Set::new(|k: u32| in_block(a.0, b.0, k))));
    }
}

/// Splitting `s + b` where `b` holds no separator extends the last piece of `s` by `b`.
proof fn lemma_split_extend(s: Seq<char>, b: Seq<char>, sep: char)
    requires
        forall|i: int| 0 <= i < b.len() ==> b[i] != sep,
    ensures
        split_on(s + b, sep).len() == split_on(s, sep).len(),
        split_on(s, sep).len() >= 1,
        split_on(s + b, sep) == split_on(s, sep).update(
            split_on(s, sep).len() - 1,
            split_on(s, sep).last() + b,
        ),
    decreases b.len(),
{
    if b.len() == 0 {
        assert(s + b =~= s);
        lemma_split_nonempty(s, sep);
        assert(split_on(s, sep).last() + b =~= split_on(s, sep).last());
        assert(split_on(s, sep).update(split_on(s, sep).len() - 1, split_on(s, sep).last())
            =~= split_on(s, sep));
    } else {
        let c = b.drop_last();
        lemma_split_extend(s, c, sep);
        assert((s + b).drop_last() =~= s + c);
        assert((s + b).last() == b.last());
        let p = split_on(s, sep);
        let q = split_on(s + c, sep);
        assert(b[b.len() - 1] != sep);
        assert(q.last() == p.last() + c);
        assert((p.last() + c).push(b.last()) =~= p.last() + b);
        assert(split_on(s + b, sep) == q.update(q.len() - 1, q.last().push(b.last())));
        assert(split_on(s + b, sep) =~= p.update(p.len() - 1, p.last() + b));
    }
}

proof fn lemma_split_nonempty(s: Seq<char>, sep: char)
    ensures
        split_on(s, sep).len() >= 1,
    decreases s.len(),
{
    if s.len() > 0 {
        lemma_split_nonempty(s.drop_last(), sep);
    }
}

/// A text of two lines without line breaks in them splits into those two lines.
proof fn lemma_two_lines(x: Seq<char>, y: Seq<char>)
    requires
        forall|i: int| 0 <= i < x.len() ==> x[i] != '\n',
        forall|i: int| 0 <= i < y.len() ==> y[i] != '\n',
    ensures
        split_on(x + seq!['\n'] + y, '\n') == seq![x, y],
{
    let e = Seq::<char>::empty();
    lemma_split_extend(e, x, '\n');
    assert(e + x =~= x);
    assert(split_on(e, '\n') == seq![e]);
    assert(split_on(x, '\n') =~= seq![x]);
    let xs = x + seq!['\n'];
    assert(xs.drop_last() =~= x);
    assert(split_on(xs, '\n') =~= seq![x, e]);
    lemma_split_extend(xs, y, '\n');
    assert(e + y =~= y);
    assert(split_on(xs + y, '\n') =~= seq![x, y]);
}

/// A text made of a `..., First>` record at `x` and, on the next line, a record at
/// `y`: where the second record is not named `..., Last>` it is refused as an
/// unmatched block, where `y < x` as a reversed one, and otherwise it describes
/// exactly the scalar values of `x ..= y`, each with the second record's fields and
/// an empty name. Where `x ..= y` holds no surrogate, these are the `y - x + 1`
/// codepoints `x, ..., y`.
pub proof fn lemma_block_text(first: Seq<char>, last: Seq<char>)
    requires
        forall|i: int| 0 <= i < first.len() ==> first[i] != '\n',
        forall|i: int| 0 <= i < last.len() ==> last[i] != '\n',
        line_record(first) matches Some(a) && is_scalar_value(a.0 as int) && ends_with(
            a.1[0],
            first_marker(),
        ),
        line_record(last) matches Some(b) && is_scalar_value(b.0 as int),
    ensures
        ({
            let a = line_record(first)->0;
            let b = line_record(last)->0;
            let r = read_outcome(first + seq!['\n'] + last);
            if !ends_with(b.1[0], last_marker()) {
                r == Err::<DataView, ReadError>(ReadError::UnmatchedFirst(a.0))
            } else if b.0 < a.0 {
                r == Err::<DataView, ReadError>(ReadError::ReversedBlock(a.0, b.0))
            } else {
                &&& r is Ok
                &&& forall|k: u32| #[trigger] r->Ok_0.contains_key(k) <==> in_block(a.0, b.0, k)
                &&& forall|k: u32|
                    #[trigger] r->Ok_0.contains_key(k) ==> r->Ok_0[k] == blank_name(b.1)
                        && r->Ok_0[k][0] == Seq::<char>::empty()
            }
        }),
{
    let src = first + seq!['\n'] + last;
    lemma_two_lines(first, last);
    let lines = split_on(src, '\n');
    assert(lines.drop_last() =~= seq![first]);
    assert(seq![first].drop_last() =~= Seq::<Seq<char>>::empty());
    let none: Seq<Seq<char>> = Seq::empty();
    assert(read_lines(none) == initial_state());
    assert(seq![first].last() == first);
    assert(read_lines(seq![first]) == read_step(initial_state(), first));
    assert(read_lines(lines) == read_step(read_lines(seq![first]), last));
    lemma_block_expansion(Map::empty(), first, last);
}

/// Splitting `s`, a separator and then `b`, where `b` holds no separator, gives the
/// pieces of `s` followed by `b`.
proof fn lemma_split_append(s: Seq<char>, b: Seq<char>, sep: char)
    requires
        forall|i: int| 0 <= i < b.len() ==> b[i] != sep,
    ensures
        split_on(s + seq![sep] + b, sep) == split_on(s, sep).push(b),
{
    let t = s + seq![sep];
    assert(t.drop_last() =~= s);
    assert(t.last() == sep);
    lemma_split_extend(t, b, sep);
    let p = split_on(s, sep);
    assert(Seq::<char>::empty() + b =~= b);
    assert(p.push(Seq::<char>::empty()).update(p.len() as int, b) =~= p.push(b));
}

/// The record line of LATIN CAPITAL LETTER A, read as a whole text, is read without
/// error and stores codepoint `0x41` with that name and general category `Lu`.
pub proof fn lemma_latin_capital_a()
    ensures
        ({
            let m = unicode_data_of("0041;LATIN CAPITAL LETTER A;Lu;0;L;;;;;N;;;;;"@);
            &&& read_outcome("0041;LATIN CAPITAL LETTER A;Lu;0;L;;;;;N;;;;;"@) == Ok::<
                DataView,
                ReadError,
            >(m)
            &&& m.contains_key(0x41)
            &&& m[0x41][0] == "LATIN CAPITAL LETTER A"@
            &&& m[0x41][1] == "Lu"@
        }),
{
    let src = "0041;LATIN CAPITAL LETTER A;Lu;0;L;;;;;N;;;;;"@;
    let e = Seq::<char>::empty();
    reveal_strlit("0");
    reveal_strlit("0041");
    reveal_strlit("L");
    reveal_strlit("LATIN CAPITAL LETTER A");
    reveal_strlit("Lu");
    reveal_strlit("N");
    reveal_strlit("0041;LATIN CAPITAL LETTER A;Lu;0;L;;;;;N;;;;;");
    let f0 = "0041"@;
    lemma_split_extend(e, f0, ';');
    assert(e + f0 =~= f0);
    let l0 = f0;
    assert(split_on(l0, ';') =~= seq![f0]);
    let f1 = "LATIN CAPITAL LETTER A"@;
    lemma_split_append(l0, f1, ';');
    let l1 = l0 + seq![';'] + f1;
    let f2 = "Lu"@;
    lemma_split_append(l1, f2, ';');
    let l2 = l1 + seq![';'] + f2;
    let f3 = "0"@;
    lemma_split_append(l2, f3, ';');
    let l3 = l2 + seq![';'] + f3;
    let f4 = "L"@;
    lemma_split_append(l3, f4, ';');
    let l4 = l3 + seq![';'] + f4;
    let f5 = e;
    lemma_split_append(l4, f5, ';');
    let l5 = l4 + seq![';'] + f5;
    let f6 = e;
    lemma_split_append(l5, f6, ';');
    let l6 = l5 + seq![';'] + f6;
    let f7 = e;
    lemma_split_append(l6, f7, ';');
    let l7 = l6 + seq![';'] + f7;
    let f8 = e;
    lemma_split_append(l7, f8, ';');
    let l8 = l7 + seq![';'] + f8;
    let f9 = "N"@;
    lemma_split_append(l8, f9, ';');
    let l9 = l8 + seq![';'] + f9;
    let f10 = e;
    lemma_split_append(l9, f10, ';');
    let l10 = l9 + seq![';'] + f10;
    let f11 = e;
    lemma_split_append(l10, f11, ';');
    let l11 = l10 + seq![';'] + f11;
    let f12 = e;
    lemma_split_append(l11, f12, ';');
    let l12 = l11 + seq![';'] + f12;
    let f13 = e;
    lemma_split_append(l12, f13, ';');
    let l13 = l12 + seq![';'] + f13;
    let f14 = e;
    lemma_split_append(l13, f14, ';');
    let l14 = l13 + seq![';'] + f14;
    assert(split_on(l14, ';') =~= seq![f0, f1, f2, f3, f4, f5, f6, f7, f8, f9, f10, f11, f12, f13, f14]);
    assert(l14 =~= src);
    let f = seq![f0, f1, f2, f3, f4, f5, f6, f7, f8, f9, f10, f11, f12, f13, f14];
    assert(hex_digit_value(f0[0]) == 0 && hex_digit_value(f0[1]) == 0);
    assert(hex_digit_value(f0[2]) == 4 && hex_digit_value(f0[3]) == 1);
    assert(is_hex(f0));
    assert(f0.drop_last().drop_last().drop_last().drop_last() =~= e);
    reveal_with_fuel(hex_value, 5);
    assert(hex_value(f0) == 0x41);
    assert(record_of(f) == Some((0x41u32, f.subrange(1, 15))));
    assert(strip_cr(src) == src);
    assert(!ends_with(f1, first_marker())) by {
        assert(f1.subrange(14, 22)[0] != first_marker()[0]);
    }
    lemma_split_extend(e, src, '\n');
    assert(e + src =~= src);
    let lines = split_on(src, '\n');
    assert(lines =~= seq![src]);
    let none: Seq<Seq<char>> = Seq::empty();
    assert(lines.drop_last() =~= none);
    assert(read_lines(none) == initial_state());
    assert(read_lines(lines) == read_step(initial_state(), src));
    assert(f.subrange(1, 15)[0] == f1 && f.subrange(1, 15)[1] == f2);
}

} // verus!
