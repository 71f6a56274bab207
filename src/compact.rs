//! Compacting per-codepoint assignments into tables of maximal ranges.
//!
//! A value table row `(start, end, value)` gives `value` to every codepoint in
//! `start ..= end`; a flag table row `(start, end)` marks every codepoint in it,
//! and a codepoint outside every row is unmarked.

use vstd::prelude::*;

verus! {

/// The views of `(codepoint, value)` pairs.
pub open spec fn pair_views(p: Seq<(u32, String)>) -> Seq<(u32, Seq<char>)> {
    p.map_values(|x: (u32, String)| (x.0, x.1@))
}

/// The views of value table rows.
pub open spec fn row_views(t: Seq<(u32, u32, String)>) -> Seq<(u32, u32, Seq<char>)> {
    t.map_values(|x: (u32, u32, String)| (x.0, x.1, x.2@))
}

/// The table that compaction makes of the pairs, taken in order: a pair that
/// continues the last row (its codepoint follows the row's end and its value is
/// the row's value) extends that row; any other pair starts a new row.
pub open spec fn compacted(p: Seq<(u32, Seq<char>)>) -> Seq<(u32, u32, Seq<char>)>
    decreases p.len(),
{
    if p.len() == 0 {
        Seq::empty()
    } else {
        let t = compacted(p.drop_last());
        let c = p.last().0;
        let v = p.last().1;
        if t.len() > 0 && t.last().1 as int + 1 == c as int && t.last().2 == v {
            t.update(t.len() - 1, (t.last().0, c, v))
        } else {
            t.push((c, c, v))
        }
    }
}

/// The flag table that compaction makes of the pairs: `false` pairs are left out,
/// a `true` pair that follows the last row's end extends it, any other starts a row.
pub open spec fn compacted_flags(p: Seq<(u32, bool)>) -> Seq<(u32, u32)>
    decreases p.len(),
{
    if p.len() == 0 {
        Seq::empty()
    } else {
        let t = compacted_flags(p.drop_last());
        let c = p.last().0;
        if !p.last().1 {
            t
        } else if t.len() > 0 && t.last().1 as int + 1 == c as int {
            t.update(t.len() - 1, (t.last().0, c))
        } else {
            t.push((c, c))
        }
    }
}

/// The value that the pairs give to `cp` (the last pair for it, if several do).
pub open spec fn assigned<V>(p: Seq<(u32, V)>, cp: int) -> Option<V>
    decreases p.len(),
{
    if p.len() == 0 {
        None
    } else if p.last().0 == cp {
        Some(p.last().1)
    } else {
        assigned(p.drop_last(), cp)
    }
}

/// The value of the last row that holds `cp`, or `None` where no row does.
pub open spec fn value_at(t: Seq<(u32, u32, Seq<char>)>, cp: int) -> Option<Seq<char>>
    decreases t.len(),
{
    if t.len() == 0 {
        None
    } else if t.last().0 <= cp && cp <= t.last().1 {
        Some(t.last().2)
    } else {
        value_at(t.drop_last(), cp)
    }
}

/// Whether some row of a flag table holds `cp`.
pub open spec fn covered(t: Seq<(u32, u32)>, cp: int) -> bool
    decreases t.len(),
{
    if t.len() == 0 {
        false
    } else if t.last().0 <= cp && cp <= t.last().1 {
        true
    } else {
        covered(t.drop_last(), cp)
    }
}

/// Pairs in strictly increasing codepoint order.
pub open spec fn sorted_pairs<V>(p: Seq<(u32, V)>) -> bool {
    forall|i: int, j: int| 0 <= i < j < p.len() ==> p[i].0 < p[j].0
}

/// Rows with `start <= end`, each one ending before the next one starts.
pub open spec fn ordered_rows(t: Seq<(u32, u32, Seq<char>)>) -> bool {
    &&& forall|i: int| 0 <= i < t.len() ==> t[i].0 <= t[i].1
    &&& forall|i: int, j: int| 0 <= i < j < t.len() ==> t[i].1 < t[j].0
}

/// Flag rows with `start <= end`, each one ending before the next one starts.
pub open spec fn ordered_flag_rows(t: Seq<(u32, u32)>) -> bool {
    &&& forall|i: int| 0 <= i < t.len() ==> t[i].0 <= t[i].1
    &&& forall|i: int, j: int| 0 <= i < j < t.len() ==> t[i].1 < t[j].0
}

/// No two neighbouring rows that touch hold the same value.
pub open spec fn maximal_rows(t: Seq<(u32, u32, Seq<char>)>) -> bool {
    forall|i: int|
        0 <= i < t.len() - 1 && #[trigger] t[i].1 as int + 1 == t[i + 1].0 as int ==> t[i].2
            != t[i + 1].2
}

/// No two neighbouring flag rows touch: there is an unmarked codepoint between them.
pub open spec fn maximal_flag_rows(t: Seq<(u32, u32)>) -> bool {
    forall|i: int| 0 <= i < t.len() - 1 ==> #[trigger] t[i].1 as int + 1 < t[i + 1].0 as int
}

/// Compacts `(codepoint, value)` pairs into a value table, in one pass.
pub fn compact_values(pairs: &Vec<(u32, String)>) -> (r: Vec<(u32, u32, String)>)
    ensures
        row_views(r@) == compacted(pair_views(pairs@)),
{
    let mut r: Vec<(u32, u32, String)> = Vec::new();
    let mut i: usize = 0;
    proof {
        assert(pair_views(pairs@).subrange(0, 0) =~= Seq::<(u32, Seq<char>)>::empty());
        assert(row_views(r@) =~= Seq::<(u32, u32, Seq<char>)>::empty());
    }
    while i < pairs.len()
        invariant
            i <= pairs.len(),
            row_views(r@) == compacted(pair_views(pairs@).subrange(0, i as int)),
        decreases pairs.len() - i,
    {
        let c = pairs[i].0;
        let v = &pairs[i].1;
        let ghost prev = row_views(r@);
        proof {
            let q = pair_views(pairs@).subrange(0, i as int + 1);
            assert(q.drop_last() =~= pair_views(pairs@).subrange(0, i as int));
            assert(q.last() == (c, v@));
        }
        let n = r.len();
        if n > 0 && r[n - 1].1 < c && c - r[n - 1].1 == 1 && r[n - 1].2 == *v {
            let s = r[n - 1].0;
            r.set(n - 1, (s, c, v.clone()));
            proof {
                assert(row_views(r@) =~= prev.update(prev.len() - 1, (prev.last().0, c, v@)));
            }
        } else {
            r.push((c, c, v.clone()));
            proof {
                assert(row_views(r@) =~= prev.push((c, c, v@)));
            }
        }
        i = i + 1;
    }
    proof {
        assert(pair_views(pairs@).subrange(0, pairs.len() as int) =~= pair_views(pairs@));
    }
    r
}

/// Compacts `(codepoint, flag)` pairs into a flag table holding the `true` runs only.
pub fn compact_flags(pairs: &Vec<(u32, bool)>) -> (r: Vec<(u32, u32)>)
    ensures
        r@ == compacted_flags(pairs@),
{
    let mut r: Vec<(u32, u32)> = Vec::new();
    let mut i: usize = 0;
    proof {
        assert(pairs@.subrange(0, 0) =~= Seq::<(u32, bool)>::empty());
    }
    while i < pairs.len()
        invariant
            i <= pairs.len(),
            r@ == compacted_flags(pairs@.subrange(0, i as int)),
        decreases pairs.len() - i,
    {
        let c = pairs[i].0;
        let f = pairs[i].1;
        proof {
            let q = pairs@.subrange(0, i as int + 1);
            assert(q.drop_last() =~= pairs@.subrange(0, i as int));
        }
        if f {
            let n = r.len();
            if n > 0 && r[n - 1].1 < c && c - r[n - 1].1 == 1 {
                let s = r[n - 1].0;
                r.set(n - 1, (s, c));
            } else {
                r.push((c, c));
            }
        }
        i = i + 1;
    }
    proof {
        assert(pairs@.subrange(0, pairs.len() as int) =~= pairs@);
    }
    r
}

/// Compaction loses nothing: for every codepoint, the compacted table gives the
/// value that the pairs assign to it, and no value where they assign none.
pub proof fn lemma_compact_round_trip(p: Seq<(u32, Seq<char>)>, cp: int)
    ensures
        value_at(compacted(p), cp) == assigned(p, cp),
        compacted(p).len() > 0 ==> compacted(p).last().0 <= compacted(p).last().1,
    decreases p.len(),
{
    if p.len() > 0 {
        let q = p.drop_last();
        let t = compacted(q);
        lemma_compact_round_trip(q, cp);
        let c = p.last().0;
        let v = p.last().1;
        if t.len() > 0 && t.last().1 as int + 1 == c as int && t.last().2 == v {
            let u = t.update(t.len() - 1, (t.last().0, c, v));
            assert(u.drop_last() =~= t.drop_last());
            assert(u.last() == (t.last().0, c, v));
            assert(compacted(p) == u);
            if cp != c {
                assert(assigned(p, cp) == assigned(q, cp));
            }
        } else {
            let u = t.push((c, c, v));
            assert(u.drop_last() =~= t);
            assert(compacted(p) == u);
        }
    }
}

/// Compaction of sorted pairs gives ordered rows, the last of which ends at the
/// last pair's codepoint.
pub proof fn lemma_compact_ordered(p: Seq<(u32, Seq<char>)>)
    requires
        sorted_pairs(p),
    ensures
        ordered_rows(compacted(p)),
        p.len() > 0 ==> compacted(p).len() > 0 && compacted(p).last().1 == p.last().0,
    decreases p.len(),
{
    if p.len() > 0 {
        let q = p.drop_last();
        assert(sorted_pairs(q));
        lemma_compact_ordered(q);
        let t = compacted(q);
        let c = p.last().0;
        if t.len() > 0 {
            assert(q[q.len() - 1].0 < c);
            assert forall|i: int| 0 <= i < t.len() implies t[i].1 < c by {
                if i < t.len() - 1 {
                    assert(t[i].1 < t[t.len() - 1].0);
                }
            }
        }
    }
}

/// Compaction never leaves two touching neighbouring rows with the same value.
pub proof fn lemma_compact_maximal(p: Seq<(u32, Seq<char>)>)
    ensures
        maximal_rows(compacted(p)),
    decreases p.len(),
{
    if p.len() > 0 {
        let q = p.drop_last();
        lemma_compact_maximal(q);
        let t = compacted(q);
        let u = compacted(p);
        let c = p.last().0;
        let v = p.last().1;
        if t.len() > 0 && t.last().1 as int + 1 == c as int && t.last().2 == v {
            assert forall|i: int|
                0 <= i < u.len() - 1 && #[trigger] u[i].1 as int + 1 == u[i + 1].0 as int implies u[i].2
                != u[i + 1].2 by {
                assert(u[i] == t[i]);
                assert(u[i + 1].0 == t[i + 1].0 && u[i + 1].2 == t[i + 1].2);
            }
        } else {
            assert forall|i: int|
                0 <= i < u.len() - 1 && #[trigger] u[i].1 as int + 1 == u[i + 1].0 as int implies u[i].2
                != u[i + 1].2 by {
                if i < t.len() - 1 {
                    assert(u[i] == t[i] && u[i + 1] == t[i + 1]);
                }
            }
        }
    }
}

/// A codepoint above the end of every row is not covered.
proof fn lemma_not_covered_above(t: Seq<(u32, u32)>, cp: int)
    requires
        forall|i: int| 0 <= i < t.len() ==> t[i].1 < cp,
    ensures
        !covered(t, cp),
    decreases t.len(),
{
    if t.len() > 0 {
        lemma_not_covered_above(t.drop_last(), cp);
    }
}

/// Compaction of sorted flag pairs gives ordered rows that never touch, all ending
/// at or before the last pair's codepoint.
pub proof fn lemma_compact_flags_ordered(p: Seq<(u32, bool)>)
    requires
        sorted_pairs(p),
    ensures
        ordered_flag_rows(compacted_flags(p)),
        maximal_flag_rows(compacted_flags(p)),
        p.len() > 0 ==> forall|i: int|
            0 <= i < compacted_flags(p).len() ==> #[trigger] compacted_flags(p)[i].1
                <= p.last().0,
    decreases p.len(),
{
    if p.len() > 0 {
        let q = p.drop_last();
        assert(sorted_pairs(q));
        lemma_compact_flags_ordered(q);
        let t = compacted_flags(q);
        let u = compacted_flags(p);
        let c = p.last().0;
        if q.len() > 0 {
            assert(q[q.len() - 1].0 < c);
        }
        assert forall|i: int| 0 <= i < t.len() implies t[i].1 < c by {
            assert(t[i].1 <= q.last().0);
        }
        if p.last().1 && t.len() > 0 && t.last().1 as int + 1 == c as int {
            assert forall|i: int| 0 <= i < u.len() - 1 implies #[trigger] u[i].1 as int + 1
                < u[i + 1].0 as int by {
                assert(u[i] == t[i]);
                assert(u[i + 1].0 == t[i + 1].0);
            }
        } else if p.last().1 {
            assert forall|i: int| 0 <= i < u.len() - 1 implies #[trigger] u[i].1 as int + 1
                < u[i + 1].0 as int by {
                if i < t.len() - 1 {
                    assert(u[i] == t[i] && u[i + 1] == t[i + 1]);
                }
            }
        }
    }
}

/// Compaction of sorted flag pairs loses nothing: a codepoint is covered by the
/// table exactly when the pairs mark it `true`.
pub proof fn lemma_compact_flags_round_trip(p: Seq<(u32, bool)>, cp: int)
    requires
        sorted_pairs(p),
    ensures
        covered(compacted_flags(p), cp) <==> assigned(p, cp) == Some(true),
    decreases p.len(),
{
    if p.len() > 0 {
        let q = p.drop_last();
        assert(sorted_pairs(q));
        lemma_compact_flags_round_trip(q, cp);
        lemma_compact_flags_ordered(q);
        let t = compacted_flags(q);
        let c = p.last().0;
        if q.len() > 0 {
            assert(q[q.len() - 1].0 < c);
        }
        if !p.last().1 {
            if cp == c {
                assert forall|i: int| 0 <= i < t.len() implies t[i].1 < cp by {
                    assert(t[i].1 <= q.last().0);
                }
                lemma_not_covered_above(t, cp);
            }
        } else if t.len() > 0 && t.last().1 as int + 1 == c as int {
            let u = t.update(t.len() - 1, (t.last().0, c));
            assert(u.drop_last() =~= t.drop_last());
        } else {
            assert(t.push((c, c)).drop_last() =~= t);
        }
    }
}

} // verus!
