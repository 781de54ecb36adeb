//! Facts about sequences that the proofs of this crate share.

use vstd::prelude::*;

verus! {

/// Mapping a sequence with one more element at the end gives the mapped
/// sequence with the mapped element at the end.
pub proof fn lemma_map_push<A, B>(s: Seq<A>, x: A, f: spec_fn(A) -> B)
    ensures
        s.push(x).map_values(f) == s.map_values(f).push(f(x)),
{
    assert(s.push(x).map_values(f) =~= s.map_values(f).push(f(x)));
}

/// The first `k + 1` elements are the first `k` ones and the element at `k`.
pub proof fn lemma_take_push<A>(s: Seq<A>, k: int)
    requires
        0 <= k < s.len(),
    ensures
        s.take(k + 1) == s.take(k).push(s[k]),
{
    assert(s.take(k + 1) =~= s.take(k).push(s[k]));
}

/// Filtering the first `k + 1` elements filters the first `k` ones and then
/// keeps or drops the element at `k`.
pub proof fn lemma_filter_take_push<A>(s: Seq<A>, p: spec_fn(A) -> bool, k: int)
    requires
        0 <= k < s.len(),
    ensures
        s.take(k + 1).filter(p) == if p(s[k]) {
            s.take(k).filter(p).push(s[k])
        } else {
            s.take(k).filter(p)
        },
{
    reveal_with_fuel(Seq::filter, 1);
    assert(s.take(k + 1).drop_last() =~= s.take(k));
    assert(s.take(k + 1).last() == s[k]);
}

} // verus!

verus! {

/// Filtering keeps only elements of the sequence, so a property of every
/// element holds of every element kept.
pub proof fn lemma_filter_keeps<A>(s: Seq<A>, p: spec_fn(A) -> bool, q: spec_fn(A) -> bool)
    requires
        forall|i: int| 0 <= i < s.len() ==> q(#[trigger] s[i]),
    ensures
        forall|i: int| 0 <= i < s.filter(p).len() ==> q(#[trigger] s.filter(p)[i]),
    decreases s.len(),
{
    reveal_with_fuel(Seq::filter, 1);
    if s.len() > 0 {
        lemma_filter_keeps(s.drop_last(), p, q);
        let f = s.drop_last().filter(p);
        assert forall|i: int| 0 <= i < s.filter(p).len() implies q(#[trigger] s.filter(p)[i]) by {
            if i < f.len() {
                assert(s.filter(p)[i] == f[i]);
            }
        }
    }
}

} // verus!

verus! {

/// An element of a concatenation is an element of one of its parts.
pub proof fn lemma_add_contains<A>(a: Seq<A>, b: Seq<A>, x: A)
    ensures
        (a + b).contains(x) <==> a.contains(x) || b.contains(x),
{
    if (a + b).contains(x) {
        let t = choose|t: int| 0 <= t < (a + b).len() && (a + b)[t] == x;
        if t < a.len() {
            assert(a[t] == x);
        } else {
            assert(b[t - a.len()] == x);
        }
    }
    if a.contains(x) {
        let t = choose|t: int| 0 <= t < a.len() && a[t] == x;
        assert((a + b)[t] == x);
    }
    if b.contains(x) {
        let t = choose|t: int| 0 <= t < b.len() && b[t] == x;
        assert((a + b)[t + a.len()] == x);
    }
}

} // verus!

verus! {

/// Filtering with a predicate that holds of every element changes nothing.
pub proof fn lemma_filter_all<A>(s: Seq<A>, p: spec_fn(A) -> bool)
    requires
        forall|i: int| 0 <= i < s.len() ==> p(#[trigger] s[i]),
    ensures
        s.filter(p) == s,
    decreases s.len(),
{
    reveal_with_fuel(Seq::filter, 1);
    if s.len() > 0 {
        lemma_filter_all(s.drop_last(), p);
        assert(s.drop_last().push(s.last()) =~= s);
    }
}

} // verus!
