//! Search engine component.

pub mod index;
pub mod laws;
pub mod sort;

use vstd::prelude::*;

use std::sync::Arc;

use crate::text::{spec_lowercase, to_lowercase};

use crate::gui::Message;

use super::event::Event;
use super::object::{section_names, symbol_names, BinaryObject, SymbolKind};

use self::index::{grouped, lemma_grouped_push, SubstringIndex};

use self::sort::{entries_view, entry_order, sort_entries};

verus! {

/// The substrings of `name` that start at character `j`, of two characters
/// and more, in order of length, lower-cased, each paired with the position
/// `i` of the name.
pub open spec fn row_hits(name: Seq<char>, j: int, i: usize) -> Seq<(Seq<char>, usize)> {
    Seq::new(
        if j + 1 < name.len() {
            (name.len() - j - 1) as nat
        } else {
            0
        },
        |t: int| (spec_lowercase(name.subrange(j, j + t + 2)), i),
    )
}

/// The substrings of `name` that start before character `j`, by start and
/// then by length.
pub open spec fn rows_hits(name: Seq<char>, i: usize, j: int) -> Seq<(Seq<char>, usize)>
    decreases j,
{
    if j <= 0 {
        Seq::empty()
    } else {
        rows_hits(name, i, j - 1) + row_hits(name, j - 1, i)
    }
}

/// The substrings of two characters and more of the first `m` names, name
/// by name, each lower-cased and paired with the position of its name.
pub open spec fn all_hits(names: Seq<Seq<char>>, m: int) -> Seq<(Seq<char>, usize)>
    decreases m,
{
    if m <= 0 {
        Seq::empty()
    } else {
        all_hits(names, m - 1) + rows_hits(names[m - 1], (m - 1) as usize, names[m - 1].len() as int)
    }
}

/// The substring index of a list of names: each lower-cased substring of two
/// characters and more of a name maps to the positions of the names it
/// occurs in, once per occurrence, in order.
pub open spec fn substring_index(names: Seq<Seq<char>>) -> Map<Seq<char>, Seq<usize>> {
    grouped(all_hits(names, names.len() as int))
}

/// Builds the substring index of a list of names.
pub fn substrings(names: &Vec<String>) -> (map: SubstringIndex)
    ensures
        map.wf(),
        map.view() == substring_index(names@.map_values(|s: String| s@)),
{
    let ghost nv = names@.map_values(|s: String| s@);
    let mut map = SubstringIndex::new();
    assert(map.view() =~= grouped(Seq::empty()));
    let mut index: usize = 0;
    while index < names.len()
        invariant
            index <= names@.len(),
            nv == names@.map_values(|s: String| s@),
            map.wf(),
            map.view() == grouped(all_hits(nv, index as int)),
        decreases names@.len() - index,
    {
        let string = names[index].as_str();
        let n = string.unicode_len();
        let ghost done = all_hits(nv, index as int);
        assert(string@ == nv[index as int]);
        assert(done + rows_hits(string@, index, 0) =~= done);
        let mut j: usize = 0;
        while j < n
            invariant
                j <= n,
                n == string@.len(),
                map.wf(),
                map.view() == grouped(done + rows_hits(string@, index, j as int)),
            decreases n - j,
        {
            let ghost before = done + rows_hits(string@, index, j as int);
            let ghost row = row_hits(string@, j as int, index);
            assert(before + row.take(0) =~= before);
            let mut k: usize = j + 1;
            while k < n
                invariant
                    j < n,
                    j + 1 <= k <= n,
                    n == string@.len(),
                    row == row_hits(string@, j as int, index),
                    map.wf(),
                    map.view() == grouped(before + row.take(k - j - 1)),
                decreases n - k,
            {
                let sub = string.substring_char(j, k + 1);
                let lower = to_lowercase(sub);
                proof {
                    let t = k - j - 1;
                    assert(row[t] == (lower@, index));
                    assert(before + row.take(t + 1) =~= (before + row.take(t)).push(row[t]));
                    lemma_grouped_push(before + row.take(t), lower@, index);
                }
                map.push(lower, index);
                k = k + 1;
            }
            assert(row.take(n - j - 1) =~= row);
            assert(before + row =~= done + rows_hits(string@, index, j + 1));
            j = j + 1;
        }
        assert(done + rows_hits(string@, index, n as int) =~= all_hits(nv, index + 1));
        index = index + 1;
    }
    assert(nv.len() == names@.len());
    map
}

} // verus!

verus! {

/// Every entry of the substrings of the names before character `j` of one
/// name carries that name's position.
proof fn lemma_rows_hits_position(name: Seq<char>, i: usize, j: int)
    ensures
        forall|t: int| 0 <= t < rows_hits(name, i, j).len() ==> (#[trigger] rows_hits(name, i, j)[t]).1 == i,
    decreases j,
{
    if j > 0 {
        lemma_rows_hits_position(name, i, j - 1);
        let a = rows_hits(name, i, j - 1);
        let r = row_hits(name, j - 1, i);
        assert forall|t: int| 0 <= t < rows_hits(name, i, j).len() implies (#[trigger] rows_hits(name, i, j)[t]).1 == i by {
            if t < a.len() {
                assert(rows_hits(name, i, j)[t] == a[t]);
            } else {
                assert(rows_hits(name, i, j)[t] == r[t - a.len()]);
            }
        }
    }
}

/// Every entry of the substrings of the first `m` names carries a position
/// below `m`.
proof fn lemma_all_hits_bounded(names: Seq<Seq<char>>, m: int)
    requires
        0 <= m <= names.len(),
        names.len() <= usize::MAX,
    ensures
        forall|t: int| 0 <= t < all_hits(names, m).len() ==> (#[trigger] all_hits(names, m)[t]).1 < m,
    decreases m,
{
    if m > 0 {
        lemma_all_hits_bounded(names, m - 1);
        let a = all_hits(names, m - 1);
        let r = rows_hits(names[m - 1], (m - 1) as usize, names[m - 1].len() as int);
        lemma_rows_hits_position(names[m - 1], (m - 1) as usize, names[m - 1].len() as int);
        assert forall|t: int| 0 <= t < all_hits(names, m).len() implies (#[trigger] all_hits(names, m)[t]).1 < m by {
            if t < a.len() {
                assert(all_hits(names, m)[t] == a[t]);
            } else {
                assert(all_hits(names, m)[t] == r[t - a.len()]);
            }
        }
    }
}

/// The positions listed in the substring index of a list of names are
/// positions of that list.
pub proof fn lemma_index_positions_bounded(names: Seq<Seq<char>>)
    requires
        names.len() <= usize::MAX,
    ensures
        forall|k: Seq<char>, t: int|
            substring_index(names).contains_key(k) && 0 <= t < substring_index(names)[k].len()
                ==> #[trigger] substring_index(names)[k][t] < names.len(),
{
    let entries = all_hits(names, names.len() as int);
    lemma_all_hits_bounded(names, names.len() as int);
    assert forall|k: Seq<char>, t: int|
        substring_index(names).contains_key(k) && 0 <= t < substring_index(names)[k].len()
            implies #[trigger] substring_index(names)[k][t] < names.len() by {
        let p = |e: (Seq<char>, usize)| e.0 == k;
        let q = |e: (Seq<char>, usize)| e.1 < names.len();
        crate::seqs::lemma_filter_keeps(entries, p, q);
        assert(q(entries.filter(p)[t]));
    }
}

/// Positions `from`, `from + 1`, ... up to before `n`.
pub open spec fn all_from(from: int, n: int) -> Seq<usize> {
    Seq::new(if from < n { (n - from) as nat } else { 0 }, |t: int| (from + t) as usize)
}

/// The positions that a query selects among `n` names: all but the first
/// for an empty query, else the list of the query in the index, if any.
pub open spec fn matched(index: Map<Seq<char>, Seq<usize>>, query: Seq<char>, n: int) -> Seq<usize> {
    if query.len() == 0 {
        all_from(1, n)
    } else if index.contains_key(query) {
        index[query]
    } else {
        Seq::empty()
    }
}

/// Each position paired with the name at that position.
pub open spec fn named(positions: Seq<usize>, names: Seq<Seq<char>>) -> Seq<(usize, Seq<char>)> {
    positions.map_values(|i: usize| (i, names[i as int]))
}

/// Whether the symbol filters show a symbol of the given kind.
pub open spec fn kind_shown(kind: SymbolKind, objects: bool, functions: bool, other: bool) -> bool {
    match kind {
        SymbolKind::Object => objects,
        SymbolKind::Function => functions,
        SymbolKind::Other => other,
    }
}

/// The sections found for a query, by name and then by position.
pub open spec fn found_sections(b: BinaryObject, query: Seq<char>) -> Seq<(usize, Seq<char>)> {
    named(
        matched(substring_index(section_names(b)), query, b.sections@.len() as int),
        section_names(b),
    ).sort_by(entry_order())
}

/// The symbols found for a query that the filters show, by name and then
/// by position.
pub open spec fn found_symbols(
    b: BinaryObject,
    query: Seq<char>,
    objects: bool,
    functions: bool,
    other: bool,
) -> Seq<(usize, Seq<char>)> {
    named(
        matched(substring_index(symbol_names(b)), query, b.symbols@.len() as int).filter(
            |i: usize| kind_shown(b.symbols@[i as int].kind, objects, functions, other),
        ),
        symbol_names(b),
    ).sort_by(entry_order())
}

/// Returns the positions that a query selects among `n` names.
fn matched_positions(index: &SubstringIndex, query: &String, n: usize) -> (v: Vec<usize>)
    requires
        index.wf(),
    ensures
        v@ == matched(index.view(), query@, n as int),
{
    let mut v: Vec<usize> = Vec::new();
    if query.as_str().unicode_len() == 0 {
        let mut i: usize = 1;
        while i < n
            invariant
                1 <= i,
                i < n ==> v@.len() == i - 1,
                i >= n ==> v@.len() == if 1 < n { n - 1 } else { 0 },
                forall|t: int| 0 <= t < v@.len() ==> #[trigger] v@[t] == t + 1,
            decreases n - i,
        {
            v.push(i);
            i = i + 1;
        }
        assert(v@ =~= all_from(1, n as int));
    } else {
        match index.get(query.as_str()) {
            Some(list) => {
                let mut k: usize = 0;
                while k < list.len()
                    invariant
                        k <= list@.len(),
                        v@ == list@.take(k as int),
                    decreases list@.len() - k,
                {
                    v.push(list[k]);
                    proof {
                        crate::seqs::lemma_take_push(list@, k as int);
                    }
                    k = k + 1;
                }
                assert(list@.take(list@.len() as int) =~= list@);
            },
            None => {
                assert(v@ =~= Seq::<usize>::empty());
            },
        }
    }
    v
}

/// Pairs each position with the name of the section there.
fn name_sections(b: &BinaryObject, positions: &Vec<usize>) -> (r: Vec<(usize, String)>)
    requires
        forall|t: int| 0 <= t < positions@.len() ==> #[trigger] positions@[t] < b.sections@.len(),
    ensures
        entries_view(r@) == named(positions@, section_names(*b)),
{
    let ghost names = section_names(*b);
    let mut r: Vec<(usize, String)> = Vec::new();
    let mut k: usize = 0;
    while k < positions.len()
        invariant
            k <= positions@.len(),
            names == section_names(*b),
            forall|t: int| 0 <= t < positions@.len() ==> #[trigger] positions@[t] < b.sections@.len(),
            entries_view(r@) == named(positions@.take(k as int), names),
        decreases positions@.len() - k,
    {
        let p = positions[k];
        let name = b.sections[p].name.clone();
        proof {
            crate::seqs::lemma_take_push(positions@, k as int);
            crate::seqs::lemma_map_push(positions@.take(k as int), p, |i: usize| (i, names[i as int]));
            crate::seqs::lemma_map_push(r@, (p, name), |e: (usize, String)| sort::entry_view(e));
        }
        r.push((p, name));
        k = k + 1;
    }
    assert(positions@.take(positions@.len() as int) =~= positions@);
    r
}

/// Pairs each position whose symbol the filters show with the name of the
/// symbol there.
fn name_symbols(b: &BinaryObject, positions: &Vec<usize>, objects: bool, functions: bool, other: bool) -> (r: Vec<(usize, String)>)
    requires
        forall|t: int| 0 <= t < positions@.len() ==> #[trigger] positions@[t] < b.symbols@.len(),
    ensures
        entries_view(r@) == named(
            positions@.filter(|i: usize| kind_shown(b.symbols@[i as int].kind, objects, functions, other)),
            symbol_names(*b),
        ),
{
    let ghost names = symbol_names(*b);
    let ghost keep = |i: usize| kind_shown(b.symbols@[i as int].kind, objects, functions, other);
    let mut r: Vec<(usize, String)> = Vec::new();
    let mut k: usize = 0;
    assert(positions@.take(0).filter(keep) =~= Seq::<usize>::empty()) by {
        reveal_with_fuel(Seq::filter, 1);
    }
    while k < positions.len()
        invariant
            k <= positions@.len(),
            names == symbol_names(*b),
            keep == (|i: usize| kind_shown(b.symbols@[i as int].kind, objects, functions, other)),
            forall|t: int| 0 <= t < positions@.len() ==> #[trigger] positions@[t] < b.symbols@.len(),
            entries_view(r@) == named(positions@.take(k as int).filter(keep), names),
        decreases positions@.len() - k,
    {
        let p = positions[k];
        proof {
            crate::seqs::lemma_filter_take_push(positions@, keep, k as int);
        }
        let shown = match b.symbols[p].kind {
            SymbolKind::Object => objects,
            SymbolKind::Function => functions,
            SymbolKind::Other => other,
        };
        if shown {
            let name = b.symbols[p].name.clone();
            proof {
                crate::seqs::lemma_map_push(positions@.take(k as int).filter(keep), p, |i: usize| (i, names[i as int]));
                crate::seqs::lemma_map_push(r@, (p, name), |e: (usize, String)| sort::entry_view(e));
            }
            r.push((p, name));
        }
        k = k + 1;
    }
    assert(positions@.take(positions@.len() as int) =~= positions@);
    r
}

/// The search engine of a binary window: the search input, the symbol
/// filters, and the substring indexes of the section and symbol names.
pub struct SearchEngine {
    /// The ID of the window.
    pub id: usize,
    /// Current search input.
    pub input: String,
    /// The binary object.
    pub binary: Arc<BinaryObject>,
    /// Substring index of the section names.
    pub sectionmap: SubstringIndex,
    /// Substring index of the symbol names.
    pub symbolmap: SubstringIndex,
    /// Whether object symbols are shown.
    pub symobjects: bool,
    /// Whether function symbols are shown.
    pub symfunctions: bool,
    /// Whether other symbols are shown.
    pub symother: bool,
}

impl SearchEngine {
    /// Well-formedness: the indexes are those of the object's names.
    pub open spec fn wf(&self) -> bool {
        &&& self.sectionmap.wf()
        &&& self.symbolmap.wf()
        &&& self.sectionmap.view() == substring_index(section_names(*self.binary))
        &&& self.symbolmap.view() == substring_index(symbol_names(*self.binary))
    }

    /// Builds the search engine of a binary object, with an empty input and
    /// every kind of symbol shown.
    pub fn new(id: usize, binary: Arc<BinaryObject>) -> (s: Self)
        ensures
            s.wf(),
            s.id == id,
            *s.binary == *binary,
            s.input@ == Seq::<char>::empty(),
            s.symobjects && s.symfunctions && s.symother,
    {
        let sections = binary.section_names();
        let symbols = binary.symbol_names();
        let sectionmap = substrings(&sections);
        let symbolmap = substrings(&symbols);
        Self {
            id,
            input: String::new(),
            binary,
            sectionmap,
            symbolmap,
            symobjects: true,
            symfunctions: true,
            symother: true,
        }
    }

    /// The sections found for the current input, as (position, name), by
    /// name and then by position.
    pub fn section_results(&self) -> (r: Vec<(usize, String)>)
        requires
            self.wf(),
        ensures
            entries_view(r@) == found_sections(*self.binary, self.input@),
    {
        let b: &BinaryObject = &self.binary;
        let n = b.sections.len();
        proof {
            assert(section_names(*b).len() == n);
            lemma_index_positions_bounded(section_names(*b));
        }
        let positions = matched_positions(&self.sectionmap, &self.input, n);
        let list = name_sections(b, &positions);
        sort_entries(&list)
    }

    /// The symbols found for the current input that the filters show, as
    /// (position, name), by name and then by position.
    pub fn symbol_results(&self) -> (r: Vec<(usize, String)>)
        requires
            self.wf(),
        ensures
            entries_view(r@) == found_symbols(
                *self.binary,
                self.input@,
                self.symobjects,
                self.symfunctions,
                self.symother,
            ),
    {
        let b: &BinaryObject = &self.binary;
        let n = b.symbols.len();
        proof {
            assert(symbol_names(*b).len() == n);
            lemma_index_positions_bounded(symbol_names(*b));
        }
        let positions = matched_positions(&self.symbolmap, &self.input, n);
        let list = name_symbols(b, &positions, self.symobjects, self.symfunctions, self.symother);
        sort_entries(&list)
    }
}

impl SearchEngine {
    /// The buttons of the section results: each section found, as in
    /// `section_results`, with the message that opens it in this window.
    pub fn section_entries(&self) -> (r: Vec<(usize, String, Message)>)
        requires
            self.wf(),
        ensures
            r@.len() == found_sections(*self.binary, self.input@).len(),
            forall|t: int|
                #![trigger r@[t]]
                0 <= t < r@.len() ==> {
                    &&& r@[t].0 == found_sections(*self.binary, self.input@)[t].0
                    &&& r@[t].1@ == found_sections(*self.binary, self.input@)[t].1
                    &&& r@[t].2 == Message::BinaryWindow(self.id, Event::OpenSection(r@[t].0))
                },
    {
        let results = self.section_results();
        entries_with(&results, self.id, true)
    }

    /// The buttons of the symbol results: each symbol found, as in
    /// `symbol_results`, with the message that opens it in this window.
    pub fn symbol_entries(&self) -> (r: Vec<(usize, String, Message)>)
        requires
            self.wf(),
        ensures
            r@.len() == found_symbols(*self.binary, self.input@, self.symobjects, self.symfunctions, self.symother).len(),
            forall|t: int|
                #![trigger r@[t]]
                0 <= t < r@.len() ==> {
                    &&& r@[t].0 == found_symbols(*self.binary, self.input@, self.symobjects, self.symfunctions, self.symother)[t].0
                    &&& r@[t].1@ == found_symbols(*self.binary, self.input@, self.symobjects, self.symfunctions, self.symother)[t].1
                    &&& r@[t].2 == Message::BinaryWindow(self.id, Event::OpenSymbol(r@[t].0))
                },
    {
        let results = self.symbol_results();
        entries_with(&results, self.id, false)
    }
}

/// Pairs each result with the message that opens it in window `id`: a
/// section when `sections`, else a symbol.
fn entries_with(results: &Vec<(usize, String)>, id: usize, sections: bool) -> (r: Vec<(usize, String, Message)>)
    ensures
        r@.len() == results@.len(),
        forall|t: int|
            #![trigger r@[t]]
            0 <= t < r@.len() ==> {
                &&& r@[t].0 == results@[t].0
                &&& r@[t].1@ == results@[t].1@
                &&& r@[t].2 == Message::BinaryWindow(
                    id,
                    if sections {
                        Event::OpenSection(r@[t].0)
                    } else {
                        Event::OpenSymbol(r@[t].0)
                    },
                )
            },
{
    let mut r: Vec<(usize, String, Message)> = Vec::new();
    let mut t: usize = 0;
    while t < results.len()
        invariant
            t <= results@.len(),
            r@.len() == t,
            forall|u: int|
                #![trigger r@[u]]
                0 <= u < t ==> {
                    &&& r@[u].0 == results@[u].0
                    &&& r@[u].1@ == results@[u].1@
                    &&& r@[u].2 == Message::BinaryWindow(
                        id,
                        if sections {
                            Event::OpenSection(r@[u].0)
                        } else {
                            Event::OpenSymbol(r@[u].0)
                        },
                    )
                },
        decreases results@.len() - t,
    {
        let i = results[t].0;
        let event = if sections {
            Event::OpenSection(i)
        } else {
            Event::OpenSymbol(i)
        };
        r.push((i, results[t].1.clone(), Message::BinaryWindow(id, event)));
        t = t + 1;
    }
    r
}

} // verus!
