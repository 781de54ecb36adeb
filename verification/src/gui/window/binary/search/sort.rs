//! Order of search results: by name, then by position.

use vstd::prelude::*;

use vstd::relations::{sorted_by, total_ordering};

use crate::text::{chars_lt, lemma_chars_lt_asymmetric, lemma_chars_lt_irreflexive, lemma_chars_lt_total, lemma_chars_lt_transitive, text_lt};

verus! {

/// A search result seen as values: its position and its name.
pub open spec fn entry_view(e: (usize, String)) -> (usize, Seq<char>) {
    (e.0, e.1@)
}

/// The values of a list of search results.
pub open spec fn entries_view(v: Seq<(usize, String)>) -> Seq<(usize, Seq<char>)> {
    v.map_values(|e: (usize, String)| entry_view(e))
}

/// `a` may come before `b`: its name comes first, or the names are equal and
/// its position is not greater.
pub open spec fn entry_leq(a: (usize, Seq<char>), b: (usize, Seq<char>)) -> bool {
    chars_lt(a.1, b.1) || (a.1 == b.1 && a.0 <= b.0)
}

/// The order of search results as a relation.
pub open spec fn entry_order() -> spec_fn((usize, Seq<char>), (usize, Seq<char>)) -> bool {
    |a: (usize, Seq<char>), b: (usize, Seq<char>)| entry_leq(a, b)
}

/// The order of search results is a total order.
pub proof fn lemma_entry_order_total()
    ensures
        total_ordering(entry_order()),
{
    let r = entry_order();
    assert forall|x: (usize, Seq<char>)| #[trigger] r(x, x) by {}
    assert forall|x: (usize, Seq<char>), y: (usize, Seq<char>)| #[trigger] r(x, y) && #[trigger] r(y, x) implies x == y by {
        lemma_chars_lt_asymmetric(x.1, y.1);
        if chars_lt(x.1, y.1) {
            lemma_chars_lt_irreflexive(y.1);
        } else if chars_lt(y.1, x.1) {
            lemma_chars_lt_irreflexive(x.1);
        }
    }
    assert forall|x: (usize, Seq<char>), y: (usize, Seq<char>), z: (usize, Seq<char>)| #[trigger] r(x, y) && #[trigger] r(y, z) implies r(x, z) by {
        if chars_lt(x.1, y.1) && chars_lt(y.1, z.1) {
            lemma_chars_lt_transitive(x.1, y.1, z.1);
        }
    }
    assert forall|x: (usize, Seq<char>), y: (usize, Seq<char>)| #[trigger] r(x, y) || #[trigger] r(y, x) by {
        lemma_chars_lt_total(x.1, y.1);
    }
}

/// Returns true if `a` may come before `b`.
fn entry_le(a: &(usize, String), b: &(usize, String)) -> (r: bool)
    ensures
        r == entry_leq(entry_view(*a), entry_view(*b)),
{
    if text_lt(a.1.as_str(), b.1.as_str()) {
        return true;
    }
    if text_lt(b.1.as_str(), a.1.as_str()) {
        proof {
            lemma_chars_lt_asymmetric(a.1@, b.1@);
        }
        return false;
    }
    proof {
        lemma_chars_lt_total(a.1@, b.1@);
    }
    a.0 <= b.0
}

/// Sorts search results by name, then by position.
pub fn sort_entries(v: &Vec<(usize, String)>) -> (out: Vec<(usize, String)>)
    ensures
        entries_view(out@) == entries_view(v@).sort_by(entry_order()),
{
    broadcast use vstd::seq_lib::group_to_multiset_ensures;

    let ghost r = entry_order();
    proof {
        lemma_entry_order_total();
    }
    let ghost input = entries_view(v@);
    let mut out: Vec<(usize, String)> = Vec::new();
    let mut i: usize = 0;
    assert(entries_view(out@) =~= Seq::<(usize, Seq<char>)>::empty());
    assert(input.take(0) =~= Seq::<(usize, Seq<char>)>::empty());
    while i < v.len()
        invariant
            i <= v@.len(),
            r == entry_order(),
            total_ordering(r),
            input == entries_view(v@),
            sorted_by(entries_view(out@), r),
            entries_view(out@).to_multiset() == input.take(i as int).to_multiset(),
        decreases v@.len() - i,
    {
        let e = (v[i].0, v[i].1.clone());
        let ghost ev = entry_view(e);
        assert(ev == input[i as int]);
        let ghost ov = entries_view(out@);
        // Find the first result that must come after `e`.
        let mut p: usize = 0;
        while p < out.len() && entry_le(&out[p], &e)
            invariant
                p <= out@.len(),
                ov == entries_view(out@),
                ev == entry_view(e),
                r == entry_order(),
                forall|q: int| 0 <= q < p ==> r(ov[q], ev),
            decreases out@.len() - p,
        {
            assert(ov[p as int] == entry_view(out@[p as int]));
            assert(r(ov[p as int], ev));
            p = p + 1;
        }
        proof {
            if p < out@.len() {
                assert(!r(ov[p as int], ev));
                assert(r(ev, ov[p as int]));
                assert forall|q: int| p <= q < ov.len() implies r(ev, #[trigger] ov[q]) by {
                    if q > p {
                        assert(r(ov[p as int], ov[q]));
                    }
                }
            }
        }
        out.insert(p, e);
        let ghost nv = entries_view(out@);
        assert(nv =~= ov.insert(p as int, ev));
        assert forall|a: int, b: int| 0 <= a < b < nv.len() implies #[trigger] r(nv[a], nv[b]) by {
            if a < p && b < p {
                assert(r(ov[a], ov[b]));
            } else if a < p && b == p {
            } else if a < p && b > p {
                assert(r(ov[a], ov[b - 1]));
            } else if a == p {
            } else {
                assert(r(ov[a - 1], ov[b - 1]));
            }
        }
        assert(input.take(i + 1) =~= input.take(i as int).push(input[i as int]));
        proof {
            vstd::seq_lib::to_multiset_insert(ov, p as int, ev);
            vstd::seq_lib::to_multiset_build(input.take(i as int), input[i as int]);
        }
        i = i + 1;
    }
    proof {
        assert(input.take(v@.len() as int) =~= input);
        input.lemma_sort_by_ensures(r);
        vstd::seq_lib::lemma_sorted_unique(entries_view(out@), input.sort_by(r), r);
    }
    out
}

} // verus!
