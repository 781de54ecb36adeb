//! An index from texts to lists of positions, grown one entry at a time.

use vstd::prelude::*;

use vstd::hash_map::StringHashMap;

verus! {

/// The lists of an index built from a sequence of (key, position) entries,
/// in order: each key that occurs maps to the positions of its entries, in
/// the order of the entries.
pub open spec fn grouped(entries: Seq<(Seq<char>, usize)>) -> Map<Seq<char>, Seq<usize>> {
    Map::new(
        |k: Seq<char>| exists|t: int| 0 <= t < entries.len() && (#[trigger] entries[t]).0 == k,
        |k: Seq<char>| entries.filter(key_is(k)).map_values(position_of()),
    )
}

/// Whether an entry has the given key.
pub open spec fn key_is(k: Seq<char>) -> spec_fn((Seq<char>, usize)) -> bool {
    |e: (Seq<char>, usize)| e.0 == k
}

/// The position of an entry.
pub open spec fn position_of() -> spec_fn((Seq<char>, usize)) -> usize {
    |e: (Seq<char>, usize)| e.1
}

/// Adding an entry at the end of the entries appends its position to the
/// list of its key.
pub proof fn lemma_grouped_push(entries: Seq<(Seq<char>, usize)>, key: Seq<char>, pos: usize)
    ensures
        grouped(entries.push((key, pos))) == grouped(entries).insert(
            key,
            if grouped(entries).contains_key(key) {
                grouped(entries)[key].push(pos)
            } else {
                seq![pos]
            },
        ),
{
    let e2 = entries.push((key, pos));
    let g1 = grouped(entries);
    let g2 = grouped(e2);
    reveal_with_fuel(Seq::filter, 1);
    assert(e2.drop_last() =~= entries);
    assert forall|k: Seq<char>| #![auto] g2.contains_key(k) == g1.insert(
        key,
        if g1.contains_key(key) {
            g1[key].push(pos)
        } else {
            seq![pos]
        },
    ).contains_key(k) by {
        if k != key {
            if g2.contains_key(k) {
                let t = choose|t: int| 0 <= t < e2.len() && (#[trigger] e2[t]).0 == k;
                assert(t < entries.len());
                assert(entries[t].0 == k);
            }
            if g1.contains_key(k) {
                let t = choose|t: int| 0 <= t < entries.len() && (#[trigger] entries[t]).0 == k;
                assert(e2[t].0 == k);
            }
        } else {
            assert(e2[entries.len() as int].0 == k);
        }
    }
    assert forall|k: Seq<char>| #![auto] g2.contains_key(k) implies g2[k] == g1.insert(
        key,
        if g1.contains_key(key) {
            g1[key].push(pos)
        } else {
            seq![pos]
        },
    )[k] by {
        let p = key_is(k);
        let f = position_of();
        if k == key {
            crate::seqs::lemma_map_push(entries.filter(p), (key, pos), f);
            if !g1.contains_key(key) {
                assert forall|t: int| 0 <= t < entries.len() implies !p(#[trigger] entries[t]) by {}
                lemma_filter_none(entries, p);
                assert(entries.filter(p).map_values(f) =~= Seq::<usize>::empty());
                assert(Seq::<usize>::empty().push(pos) =~= seq![pos]);
            }
        }
    }
    assert(g2 =~= g1.insert(
        key,
        if g1.contains_key(key) {
            g1[key].push(pos)
        } else {
            seq![pos]
        },
    ));
}

/// Filtering with a predicate that holds of no element leaves nothing.
pub proof fn lemma_filter_none<A>(s: Seq<A>, p: spec_fn(A) -> bool)
    requires
        forall|t: int| 0 <= t < s.len() ==> !p(#[trigger] s[t]),
    ensures
        s.filter(p) == Seq::<A>::empty(),
    decreases s.len(),
{
    reveal_with_fuel(Seq::filter, 1);
    if s.len() > 0 {
        lemma_filter_none(s.drop_last(), p);
    }
    assert(s.filter(p) =~= Seq::<A>::empty());
}

/// A map from texts to lists of positions: each key names a slot, and the
/// slot holds the key's list.
pub struct SubstringIndex {
    /// The slot of each key.
    slots: StringHashMap<usize>,
    /// The list held in each slot.
    lists: Vec<Vec<usize>>,
}

impl SubstringIndex {
    /// Well-formedness: every key names its own slot.
    pub closed spec fn wf(&self) -> bool {
        &&& forall|k: Seq<char>| #[trigger] self.slots@.contains_key(k) ==> self.slots@[k] < self.lists@.len()
        &&& forall|k1: Seq<char>, k2: Seq<char>|
            #[trigger] self.slots@.contains_key(k1) && #[trigger] self.slots@.contains_key(k2) && k1 != k2
                ==> self.slots@[k1] != self.slots@[k2]
    }

    /// The lists of the index, by key.
    pub closed spec fn view(&self) -> Map<Seq<char>, Seq<usize>> {
        Map::new(
            |k: Seq<char>| self.slots@.contains_key(k),
            |k: Seq<char>| self.lists@[self.slots@[k] as int]@,
        )
    }

    /// Creates an empty index.
    pub fn new() -> (s: Self)
        ensures
            s.wf(),
            s.view() == Map::<Seq<char>, Seq<usize>>::empty(),
    {
        let s = Self { slots: StringHashMap::new(), lists: Vec::new() };
        assert(s.view() =~= Map::<Seq<char>, Seq<usize>>::empty());
        s
    }

    /// Appends `pos` to the list of `key`, which starts empty.
    pub fn push(&mut self, key: String, pos: usize)
        requires
            old(self).wf(),
        ensures
            final(self).wf(),
            final(self).view() == old(self).view().insert(
                key@,
                if old(self).view().contains_key(key@) {
                    old(self).view()[key@].push(pos)
                } else {
                    seq![pos]
                },
            ),
    {
        match self.slots.get(key.as_str()) {
            Some(slot) => {
                let slot = *slot;
                self.lists[slot].push(pos);
                assert(self.view() =~= old(self).view().insert(key@, old(self).view()[key@].push(pos)));
            },
            None => {
                let slot = self.lists.len();
                let mut list: Vec<usize> = Vec::new();
                list.push(pos);
                self.lists.push(list);
                self.slots.insert(key, slot);
                assert(self.view() =~= old(self).view().insert(key@, seq![pos]));
            },
        }
    }

    /// Returns the list of `key`, if the key has one.
    pub fn get(&self, key: &str) -> (r: Option<&Vec<usize>>)
        requires
            self.wf(),
        ensures
            match r {
                Some(l) => self.view().contains_key(key@) && l@ == self.view()[key@],
                None => !self.view().contains_key(key@),
            },
    {
        match self.slots.get(key) {
            Some(slot) => Some(&self.lists[*slot]),
            None => None,
        }
    }
}

} // verus!
