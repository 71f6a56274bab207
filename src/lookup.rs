//! Binary search over compacted range tables.

use vstd::prelude::*;

use crate::compact::{covered, ordered_flag_rows, ordered_rows, row_views, value_at};

verus! {

/// In an ordered table, the row that holds `cp` gives its value.
proof fn lemma_value_at_found(t: Seq<(u32, u32, Seq<char>)>, k: int, cp: int)
    requires
        ordered_rows(t),
        0 <= k < t.len(),
        t[k].0 <= cp <= t[k].1,
    ensures
        value_at(t, cp) == Some(t[k].2),
    decreases t.len(),
{
    if k < t.len() - 1 {
        assert(t[k].1 < t[t.len() - 1].0);
        let d = t.drop_last();
        assert(ordered_rows(d));
        assert(d[k] == t[k]);
        lemma_value_at_found(d, k, cp);
    }
}

/// Where no row holds `cp`, the table gives no value.
proof fn lemma_value_at_absent(t: Seq<(u32, u32, Seq<char>)>, cp: int)
    requires
        forall|i: int| 0 <= i < t.len() ==> !(#[trigger] t[i].0 <= cp <= t[i].1),
    ensures
        value_at(t, cp) is None,
    decreases t.len(),
{
    if t.len() > 0 {
        let d = t.drop_last();
        assert forall|i: int| 0 <= i < d.len() implies !(#[trigger] d[i].0 <= cp <= d[i].1) by {
            assert(d[i] == t[i]);
        }
        lemma_value_at_absent(d, cp);
    }
}

/// A flag table covers `cp` exactly when one of its rows holds it.
proof fn lemma_covered_iff(t: Seq<(u32, u32)>, cp: int)
    ensures
        covered(t, cp) <==> exists|i: int| 0 <= i < t.len() && #[trigger] t[i].0 <= cp <= t[i].1,
    decreases t.len(),
{
    if t.len() > 0 {
        let d = t.drop_last();
        lemma_covered_iff(d, cp);
        if covered(d, cp) {
            let i = choose|i: int| 0 <= i < d.len() && #[trigger] d[i].0 <= cp <= d[i].1;
            assert(t[i] == d[i]);
        }
        if exists|i: int| 0 <= i < t.len() && #[trigger] t[i].0 <= cp <= t[i].1 {
            let i = choose|i: int| 0 <= i < t.len() && #[trigger] t[i].0 <= cp <= t[i].1;
            if i < t.len() - 1 {
                assert(d[i] == t[i]);
            }
        }
    }
}

/// Index of the row of an ordered table that holds `cp`, or `None` if no row does.
fn find_row(table: &Vec<(u32, u32, String)>, cp: u32) -> (r: Option<usize>)
    requires
        ordered_rows(row_views(table@)),
    ensures
        match r {
            Some(k) => k < table@.len() && table@[k as int].0 <= cp <= table@[k as int].1,
            None => forall|i: int|
                0 <= i < table@.len() ==> !(#[trigger] table@[i].0 <= cp <= table@[i].1),
        },
{
    let ghost t = row_views(table@);
    let mut lo: usize = 0;
    let mut hi: usize = table.len();
    while lo < hi
        invariant
            t == row_views(table@),
            ordered_rows(t),
            lo <= hi <= table@.len(),
            forall|i: int| 0 <= i < lo ==> table@[i].1 < cp,
            forall|i: int| hi <= i < table@.len() ==> table@[i].0 > cp,
        decreases hi - lo,
    {
        let mid = lo + (hi - lo) / 2;
        let s = table[mid].0;
        let e = table[mid].1;
        proof {
            assert(t[mid as int].0 == s && t[mid as int].1 == e);
        }
        if e < cp {
            proof {
                assert forall|i: int| 0 <= i <= mid implies table@[i].1 < cp by {
                    if i < mid {
                        assert(t[i].1 < t[mid as int].0);
                        assert(t[i].1 == table@[i].1);
                    }
                }
            }
            lo = mid + 1;
        } else if s > cp {
            proof {
                assert forall|i: int| mid <= i < table@.len() implies table@[i].0 > cp by {
                    if i > mid {
                        assert(t[mid as int].1 < t[i].0);
                        assert(t[mid as int].0 <= t[mid as int].1);
                        assert(t[i].0 == table@[i].0);
                    }
                }
            }
            hi = mid;
        } else {
            return Some(mid);
        }
    }
    None
}

/// The value that an ordered value table gives to `cp`, or `None` if no row holds it.
pub fn lookup_value(table: &Vec<(u32, u32, String)>, cp: u32) -> (r: Option<String>)
    requires
        ordered_rows(row_views(table@)),
    ensures
        match r {
            Some(v) => value_at(row_views(table@), cp as int) == Some(v@),
            None => value_at(row_views(table@), cp as int) is None,
        },
{
    let ghost t = row_views(table@);
    match find_row(table, cp) {
        Some(k) => {
            proof {
                assert(t[k as int] == (table@[k as int].0, table@[k as int].1, table@[k as int].2@));
                lemma_value_at_found(t, k as int, cp as int);
            }
            Some(table[k].2.clone())
        },
        None => {
            proof {
                assert forall|i: int| 0 <= i < t.len() implies !(#[trigger] t[i].0 <= cp <= t[i].1) by {
                    assert(t[i].0 == table@[i].0 && t[i].1 == table@[i].1);
                }
                lemma_value_at_absent(t, cp as int);
            }
            None
        },
    }
}

/// The value that an ordered value table gives to `cp`, or `default` if no row holds it.
pub fn lookup_value_or(table: &Vec<(u32, u32, String)>, cp: u32, default: &String) -> (r: String)
    requires
        ordered_rows(row_views(table@)),
    ensures
        r@ == match value_at(row_views(table@), cp as int) {
            Some(v) => v,
            None => default@,
        },
{
    match lookup_value(table, cp) {
        Some(v) => v,
        None => default.clone(),
    }
}

/// Whether an ordered flag table marks `cp`.
pub fn lookup_flag(table: &Vec<(u32, u32)>, cp: u32) -> (r: bool)
    requires
        ordered_flag_rows(table@),
    ensures
        r == covered(table@, cp as int),
{
    let ghost t = table@;
    let mut lo: usize = 0;
    let mut hi: usize = table.len();
    proof {
        lemma_covered_iff(t, cp as int);
    }
    while lo < hi
        invariant
            t == table@,
            ordered_flag_rows(t),
            lo <= hi <= t.len(),
            forall|i: int| 0 <= i < lo ==> t[i].1 < cp,
            forall|i: int| hi <= i < t.len() ==> t[i].0 > cp,
        decreases hi - lo,
    {
        let mid = lo + (hi - lo) / 2;
        let s = table[mid].0;
        let e = table[mid].1;
        if e < cp {
            proof {
                assert forall|i: int| 0 <= i <= mid implies t[i].1 < cp by {
                    if i < mid {
                        assert(t[i].1 < t[mid as int].0);
                    }
                }
            }
            lo = mid + 1;
        } else if s > cp {
            proof {
                assert forall|i: int| mid <= i < t.len() implies t[i].0 > cp by {
                    if i > mid {
                        assert(t[mid as int].1 < t[i].0);
                    }
                }
            }
            hi = mid;
        } else {
            proof {
                assert(t[mid as int].0 <= cp <= t[mid as int].1);
                lemma_covered_iff(t, cp as int);
            }
            return true;
        }
    }
    proof {
        lemma_covered_iff(t, cp as int);
    }
    false
}

} // verus!
