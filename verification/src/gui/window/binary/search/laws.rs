//! What the search engine finds: exactly the names that hold the query as a
//! lower-cased substring of two characters or more.

use vstd::prelude::*;

use crate::seqs::{lemma_add_contains, lemma_filter_keeps};
use crate::text::spec_lowercase;

use vstd::relations::sorted_by;

use super::super::object::{section_names, symbol_names, BinaryObject};
use super::index::{grouped, key_is, position_of};
use super::sort::{entry_order, lemma_entry_order_total};
use super::{
    all_from, all_hits, found_sections, found_symbols, kind_shown, lemma_index_positions_bounded,
    matched, named, row_hits, rows_hits, substring_index,
};

verus! {

/// `query` is the lower-cased form of a substring of two characters or more
/// of `name`.
pub open spec fn has_substring(name: Seq<char>, query: Seq<char>) -> bool {
    exists|j: int, l: int|
        0 <= j && 2 <= l && j + l <= name.len() && #[trigger] spec_lowercase(name.subrange(j, j + l))
            == query
}

/// A key lists a position in the lists built from some entries exactly when
/// the entry (key, position) is one of them.
proof fn lemma_grouped_contains(entries: Seq<(Seq<char>, usize)>, k: Seq<char>, p: usize)
    ensures
        (grouped(entries).contains_key(k) && grouped(entries)[k].contains(p)) <==> entries.contains(
            (k, p),
        ),
{
    let key = key_is(k);
    let pos = position_of();
    let f = entries.filter(key);
    if entries.contains((k, p)) {
        let t = choose|t: int| 0 <= t < entries.len() && entries[t] == (k, p);
        assert(entries[t].0 == k);
        assert(grouped(entries).contains_key(k));
        entries.lemma_filter_contains(key, t);
        let u = choose|u: int| 0 <= u < f.len() && f[u] == (k, p);
        assert(f.map_values(pos)[u] == p);
        assert(grouped(entries)[k].contains(p));
    }
    if grouped(entries).contains_key(k) && grouped(entries)[k].contains(p) {
        let m = f.map_values(pos);
        assert(grouped(entries)[k] == m);
        let u = choose|u: int| 0 <= u < m.len() && m[u] == p;
        entries.lemma_filter_pred(key, u);
        let inside = |e: (Seq<char>, usize)| entries.contains(e);
        assert forall|t: int| 0 <= t < entries.len() implies inside(#[trigger] entries[t]) by {
            assert(entries.contains(entries[t]));
        }
        lemma_filter_keeps(entries, key, inside);
        assert(inside(f[u]));
        assert(f[u] == (k, p));
    }
}

/// The substrings starting at character `j` of a name are the lower-cased
/// substrings of two characters and more that start there.
proof fn lemma_row_hits_contains(name: Seq<char>, j: int, i: usize, e: (Seq<char>, usize))
    requires
        0 <= j,
    ensures
        row_hits(name, j, i).contains(e) <==> exists|l: int|
            2 <= l && j + l <= name.len() && e == (#[trigger] spec_lowercase(name.subrange(j, j + l)), i),
{
    let r = row_hits(name, j, i);
    if r.contains(e) {
        let t = choose|t: int| 0 <= t < r.len() && r[t] == e;
        let l = t + 2;
        assert(e == (spec_lowercase(name.subrange(j, j + l)), i));
    }
    if exists|l: int|
        2 <= l && j + l <= name.len() && e == (#[trigger] spec_lowercase(name.subrange(j, j + l)), i) {
        let l = choose|l: int|
            2 <= l && j + l <= name.len() && e == (#[trigger] spec_lowercase(name.subrange(j, j + l)), i);
        assert(r[l - 2] == e);
    }
}

/// The substrings of a name that start before character `jj` are the
/// lower-cased substrings of two characters and more that start there.
proof fn lemma_rows_hits_contains(name: Seq<char>, i: usize, jj: int, e: (Seq<char>, usize))
    ensures
        rows_hits(name, i, jj).contains(e) <==> exists|j: int, l: int|
            0 <= j < jj && 2 <= l && j + l <= name.len() && e == (
                #[trigger] spec_lowercase(name.subrange(j, j + l)),
                i,
            ),
    decreases jj,
{
    if jj <= 0 {
    } else {
        lemma_rows_hits_contains(name, i, jj - 1, e);
        lemma_row_hits_contains(name, jj - 1, i, e);
        lemma_add_contains(rows_hits(name, i, jj - 1), row_hits(name, jj - 1, i), e);
        if rows_hits(name, i, jj).contains(e) {
            if rows_hits(name, i, jj - 1).contains(e) {
                let (j, l) = choose|j: int, l: int|
                    0 <= j < jj - 1 && 2 <= l && j + l <= name.len() && e == (
                        #[trigger] spec_lowercase(name.subrange(j, j + l)),
                        i,
                    );
                assert(0 <= j < jj && e == (spec_lowercase(name.subrange(j, j + l)), i));
            } else {
                let l = choose|l: int|
                    2 <= l && jj - 1 + l <= name.len() && e == (
                        #[trigger] spec_lowercase(name.subrange(jj - 1, jj - 1 + l)),
                        i,
                    );
                assert(e == (spec_lowercase(name.subrange(jj - 1, jj - 1 + l)), i));
            }
        }
        if exists|j: int, l: int|
            0 <= j < jj && 2 <= l && j + l <= name.len() && e == (
                #[trigger] spec_lowercase(name.subrange(j, j + l)),
                i,
            ) {
            let (j, l) = choose|j: int, l: int|
                0 <= j < jj && 2 <= l && j + l <= name.len() && e == (
                    #[trigger] spec_lowercase(name.subrange(j, j + l)),
                    i,
                );
            if j < jj - 1 {
                assert(rows_hits(name, i, jj - 1).contains(e));
            } else {
                assert(row_hits(name, jj - 1, i).contains(e));
            }
        }
    }
}

/// The entries for the first `m` names are the (substring, position) pairs
/// of those names.
proof fn lemma_all_hits_contains(names: Seq<Seq<char>>, m: int, k: Seq<char>, p: usize)
    requires
        0 <= m <= names.len(),
        names.len() <= usize::MAX,
    ensures
        all_hits(names, m).contains((k, p)) <==> (p < m && has_substring(names[p as int], k)),
    decreases m,
{
    if m > 0 {
        let name = names[m - 1];
        let q = (m - 1) as usize;
        lemma_all_hits_contains(names, m - 1, k, p);
        lemma_rows_hits_contains(name, q, name.len() as int, (k, p));
        lemma_add_contains(all_hits(names, m - 1), rows_hits(name, q, name.len() as int), (k, p));
        if rows_hits(name, q, name.len() as int).contains((k, p)) {
            let (j, l) = choose|j: int, l: int|
                0 <= j < name.len() && 2 <= l && j + l <= name.len() && (k, p) == (
                    #[trigger] spec_lowercase(name.subrange(j, j + l)),
                    q,
                );
            assert(p == q);
            assert(has_substring(names[p as int], k));
        }
        if p == m - 1 && has_substring(names[p as int], k) {
            let (j, l) = choose|j: int, l: int|
                0 <= j && 2 <= l && j + l <= name.len() && #[trigger] spec_lowercase(
                    name.subrange(j, j + l),
                ) == k;
            assert(0 <= j < name.len() && (k, p) == (spec_lowercase(name.subrange(j, j + l)), q));
            assert(rows_hits(name, q, name.len() as int).contains((k, p)));
        }
    }
}

/// The substring index lists a name's position under a query exactly when
/// the query is the lower-cased form of a substring of two characters or
/// more of the name, so a search finds exactly the matching names.
pub proof fn law_index_exact(names: Seq<Seq<char>>, query: Seq<char>, i: usize)
    requires
        names.len() <= usize::MAX,
        i < names.len(),
    ensures
        (substring_index(names).contains_key(query) && substring_index(names)[query].contains(i))
            <==> has_substring(names[i as int], query),
{
    lemma_grouped_contains(all_hits(names, names.len() as int), query, i);
    lemma_all_hits_contains(names, names.len() as int, query, i);
}


/// A position paired with a name is listed exactly when the position is and
/// the name is the one at that position.
proof fn lemma_named_contains(positions: Seq<usize>, names: Seq<Seq<char>>, i: usize, name: Seq<char>)
    ensures
        named(positions, names).contains((i, name)) <==> (positions.contains(i) && name
            == names[i as int]),
{
    let m = named(positions, names);
    if m.contains((i, name)) {
        let t = choose|t: int| 0 <= t < m.len() && m[t] == (i, name);
        assert(positions[t] == i);
    }
    if positions.contains(i) && name == names[i as int] {
        let t = choose|t: int| 0 <= t < positions.len() && positions[t] == i;
        assert(m[t] == (i, name));
    }
}

/// Sorting results neither adds nor drops any, and leaves them in order.
proof fn lemma_sorted_results(s: Seq<(usize, Seq<char>)>, x: (usize, Seq<char>))
    ensures
        s.sort_by(entry_order()).contains(x) <==> s.contains(x),
        sorted_by(s.sort_by(entry_order()), entry_order()),
{
    broadcast use vstd::seq_lib::group_to_multiset_ensures;

    lemma_entry_order_total();
    s.lemma_sort_by_ensures(entry_order());
    assert(s.to_multiset().count(x) == s.sort_by(entry_order()).to_multiset().count(x));
}

/// The positions that a query selects: all but the first for an empty
/// query, else those of the names that hold the query.
proof fn lemma_matched_contains(names: Seq<Seq<char>>, query: Seq<char>, i: usize)
    requires
        names.len() <= usize::MAX,
    ensures
        matched(substring_index(names), query, names.len() as int).contains(i) <==> (i < names.len()
            && if query.len() == 0 {
            1 <= i
        } else {
            has_substring(names[i as int], query)
        }),
{
    let n = names.len() as int;
    if query.len() == 0 {
        let a = all_from(1, n);
        if a.contains(i) {
            let t = choose|t: int| 0 <= t < a.len() && a[t] == i;
        }
        if 1 <= i < n {
            assert(a[i - 1] == i);
        }
    } else {
        lemma_index_positions_bounded(names);
        if i < names.len() {
            law_index_exact(names, query, i);
        } else if substring_index(names).contains_key(query) {
            let l = substring_index(names)[query];
            if l.contains(i) {
                let t = choose|t: int| 0 <= t < l.len() && l[t] == i;
                assert(l[t] < names.len());
            }
        }
    }
}

/// A search lists a section exactly when it is a section other than the
/// first for an empty query, or a section whose name holds the query as a
/// lower-cased substring of two characters or more; it lists it under its
/// name, and lists the results by name and then by position.
pub proof fn law_found_sections(b: BinaryObject, query: Seq<char>, i: usize, name: Seq<char>)
    requires
        b.sections@.len() <= usize::MAX,
    ensures
        found_sections(b, query).contains((i, name)) <==> (i < b.sections@.len() && name
            == b.sections@[i as int].name@ && if query.len() == 0 {
            1 <= i
        } else {
            has_substring(b.sections@[i as int].name@, query)
        }),
        sorted_by(found_sections(b, query), entry_order()),
{
    let names = section_names(b);
    let pos = matched(substring_index(names), query, b.sections@.len() as int);
    lemma_sorted_results(named(pos, names), (i, name));
    lemma_named_contains(pos, names, i, name);
    lemma_matched_contains(names, query, i);
}

/// A search lists a symbol exactly when the filters show its kind and it is
/// a symbol other than the first for an empty query, or a symbol whose name
/// holds the query as a lower-cased substring of two characters or more; it
/// lists it under its name, and lists the results by name and then by
/// position.
pub proof fn law_found_symbols(
    b: BinaryObject,
    query: Seq<char>,
    objects: bool,
    functions: bool,
    other: bool,
    i: usize,
    name: Seq<char>,
)
    requires
        b.symbols@.len() <= usize::MAX,
    ensures
        found_symbols(b, query, objects, functions, other).contains((i, name)) <==> (i
            < b.symbols@.len() && name == b.symbols@[i as int].name@ && kind_shown(
            b.symbols@[i as int].kind,
            objects,
            functions,
            other,
        ) && if query.len() == 0 {
            1 <= i
        } else {
            has_substring(b.symbols@[i as int].name@, query)
        }),
        sorted_by(found_symbols(b, query, objects, functions, other), entry_order()),
{
    let names = symbol_names(b);
    let keep = |p: usize| kind_shown(b.symbols@[p as int].kind, objects, functions, other);
    let pos = matched(substring_index(names), query, b.symbols@.len() as int);
    let kept = pos.filter(keep);
    lemma_sorted_results(named(kept, names), (i, name));
    lemma_named_contains(kept, names, i, name);
    lemma_matched_contains(names, query, i);
    if kept.contains(i) {
        pos.lemma_filter_contains_rev(keep, i);
        let t = choose|t: int| 0 <= t < kept.len() && kept[t] == i;
        pos.lemma_filter_pred(keep, t);
    }
    if pos.contains(i) && keep(i) {
        let t = choose|t: int| 0 <= t < pos.len() && pos[t] == i;
        pos.lemma_filter_contains(keep, t);
    }
}

} // verus!
