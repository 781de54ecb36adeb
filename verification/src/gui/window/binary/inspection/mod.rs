//! Inspection view: the sections and symbols opened from the search, and the
//! one currently inspected.

pub mod views;

use vstd::prelude::*;
use vstd::std_specs::iter::IteratorSpec;

use std::collections::HashSet;
use std::sync::Arc;

use crate::gui::Message;

use super::event::Event;
use super::object::{BinaryObject, SymbolKind};

verus! {

/// The panes of the inspection view.
#[derive(Clone, Copy, Debug, PartialEq, Eq, Structural)]
pub enum SelectView {
    /// Section selection.
    Sections,
    /// Symbol selection.
    Symbols,
    /// Inspection of the current element.
    Inspection,
}

/// The element currently inspected.
#[derive(Clone, Copy, Debug, PartialEq, Eq, Structural)]
pub enum CurrentView {
    /// The section at the given position.
    Section(usize),
    /// The symbol at the given position.
    Symbol(usize),
}

/// What the inspection pane shows.
#[derive(Clone, Copy, Debug, PartialEq, Eq, Structural)]
pub enum Inspection {
    /// Nothing is selected.
    Nothing,
    /// The selected section is not open (any more).
    MissingSection,
    /// The selected symbol is not open (any more).
    MissingSymbol,
    /// The section at the given position.
    Section(usize),
    /// The symbol at the given position, of the given kind.
    Symbol(usize, SymbolKind),
}

/// The unit in which a size is shown.
#[derive(Clone, Copy, Debug, PartialEq, Eq, Structural)]
pub enum SizeUnit {
    /// Bytes, for sizes up to 1023.
    Bytes,
    /// Kibibytes, for sizes from 1024 up to 1048576.
    KiB,
    /// Mebibytes, for sizes above that up to 1073741824.
    MiB,
    /// Gibibytes, for larger sizes.
    GiB,
}

/// The unit in which a size is shown.
pub open spec fn spec_size_unit(size: u64) -> SizeUnit {
    if size <= 1023 {
        SizeUnit::Bytes
    } else if size <= 1048576 {
        SizeUnit::KiB
    } else if size <= 1073741824 {
        SizeUnit::MiB
    } else {
        SizeUnit::GiB
    }
}

/// Returns the unit in which a size is shown.
pub fn size_unit(size: u64) -> (u: SizeUnit)
    ensures
        u == spec_size_unit(size),
{
    if size <= 1023 {
        SizeUnit::Bytes
    } else if size <= 1048576 {
        SizeUnit::KiB
    } else if size <= 1073741824 {
        SizeUnit::MiB
    } else {
        SizeUnit::GiB
    }
}

impl SizeUnit {
    /// The number of bytes in one unit.
    pub open spec fn spec_divisor(self) -> u64 {
        match self {
            SizeUnit::Bytes => 1,
            SizeUnit::KiB => 1024,
            SizeUnit::MiB => 1048576,
            SizeUnit::GiB => 1073741824,
        }
    }

    /// Returns the number of bytes in one unit.
    pub fn divisor(&self) -> (d: u64)
        ensures
            d == self.spec_divisor(),
    {
        match self {
            SizeUnit::Bytes => 1,
            SizeUnit::KiB => 1024,
            SizeUnit::MiB => 1048576,
            SizeUnit::GiB => 1073741824,
        }
    }

    /// Returns the symbol of the unit.
    pub fn suffix(&self) -> (s: &'static str)
        ensures
            s@ == match self {
                SizeUnit::Bytes => "B"@,
                SizeUnit::KiB => "kiB"@,
                SizeUnit::MiB => "MiB"@,
                SizeUnit::GiB => "GiB"@,
            },
    {
        match self {
            SizeUnit::Bytes => "B",
            SizeUnit::KiB => "kiB",
            SizeUnit::MiB => "MiB",
            SizeUnit::GiB => "GiB",
        }
    }
}

/// The inspection view of a binary window.
pub struct InspectionView {
    /// ID of the window.
    pub id: usize,
    /// The binary object.
    pub binary: Arc<BinaryObject>,
    /// Positions of the open sections.
    pub sections: HashSet<usize>,
    /// Positions of the open symbols.
    pub symbols: HashSet<usize>,
    /// The element currently inspected.
    pub selected: Option<CurrentView>,
}

/// What the inspection pane shows for the given open elements and selection.
pub open spec fn spec_inspection(
    b: BinaryObject,
    sections: Set<usize>,
    symbols: Set<usize>,
    selected: Option<CurrentView>,
) -> Inspection {
    match selected {
        None => Inspection::Nothing,
        Some(CurrentView::Section(i)) => if sections.contains(i) {
            Inspection::Section(i)
        } else {
            Inspection::MissingSection
        },
        Some(CurrentView::Symbol(i)) => if symbols.contains(i) {
            Inspection::Symbol(i, b.symbols@[i as int].kind)
        } else {
            Inspection::MissingSymbol
        },
    }
}

impl InspectionView {
    /// Well-formedness: every open element is an element of the object.
    pub open spec fn wf(&self) -> bool {
        &&& forall|i: usize| #[trigger] self.sections@.contains(i) ==> i < self.binary.sections@.len()
        &&& forall|i: usize| #[trigger] self.symbols@.contains(i) ==> i < self.binary.symbols@.len()
    }

    /// Creates an inspection view with nothing open.
    pub fn new(id: usize, binary: Arc<BinaryObject>) -> (v: Self)
        ensures
            v.wf(),
            v.id == id,
            *v.binary == *binary,
            v.sections@ == Set::<usize>::empty(),
            v.symbols@ == Set::<usize>::empty(),
            v.selected == None::<CurrentView>,
    {
        Self { id, binary, sections: HashSet::new(), symbols: HashSet::new(), selected: None }
    }

    /// Opens the section at `index` in the list of open sections.
    pub fn addsection(&mut self, index: usize)
        requires
            old(self).wf(),
            index < old(self).binary.sections@.len(),
        ensures
            final(self).wf(),
            final(self).sections@ == old(self).sections@.insert(index),
            final(self).symbols@ == old(self).symbols@,
            final(self).selected == old(self).selected,
            final(self).id == old(self).id,
            final(self).binary == old(self).binary,
    {
        broadcast use vstd::std_specs::hash::group_hash_axioms;

        self.sections.insert(index);
    }

    /// Opens the symbol at `index` in the list of open symbols.
    pub fn addsymbol(&mut self, index: usize)
        requires
            old(self).wf(),
            index < old(self).binary.symbols@.len(),
        ensures
            final(self).wf(),
            final(self).symbols@ == old(self).symbols@.insert(index),
            final(self).sections@ == old(self).sections@,
            final(self).selected == old(self).selected,
            final(self).id == old(self).id,
            final(self).binary == old(self).binary,
    {
        broadcast use vstd::std_specs::hash::group_hash_axioms;

        self.symbols.insert(index);
    }

    /// Inspects the section at `index`.
    pub fn opensection(&mut self, index: usize)
        ensures
            final(self).selected == Some(CurrentView::Section(index)),
            final(self).sections == old(self).sections,
            final(self).symbols == old(self).symbols,
            final(self).id == old(self).id,
            final(self).binary == old(self).binary,
    {
        self.selected = Some(CurrentView::Section(index));
    }

    /// Inspects the symbol at `index`.
    pub fn opensymbol(&mut self, index: usize)
        ensures
            final(self).selected == Some(CurrentView::Symbol(index)),
            final(self).sections == old(self).sections,
            final(self).symbols == old(self).symbols,
            final(self).id == old(self).id,
            final(self).binary == old(self).binary,
    {
        self.selected = Some(CurrentView::Symbol(index));
    }

    /// Closes the section at `index`; the selection stays as it is.
    pub fn closesection(&mut self, index: usize)
        requires
            old(self).wf(),
        ensures
            final(self).wf(),
            final(self).sections@ == old(self).sections@.remove(index),
            final(self).symbols@ == old(self).symbols@,
            final(self).selected == old(self).selected,
            final(self).id == old(self).id,
            final(self).binary == old(self).binary,
    {
        broadcast use vstd::std_specs::hash::group_hash_axioms;

        self.sections.remove(&index);
    }

    /// Closes the symbol at `index`; the selection stays as it is.
    pub fn closesymbol(&mut self, index: usize)
        requires
            old(self).wf(),
        ensures
            final(self).wf(),
            final(self).symbols@ == old(self).symbols@.remove(index),
            final(self).sections@ == old(self).sections@,
            final(self).selected == old(self).selected,
            final(self).id == old(self).id,
            final(self).binary == old(self).binary,
    {
        broadcast use vstd::std_specs::hash::group_hash_axioms;

        self.symbols.remove(&index);
    }

    /// Returns what the inspection pane shows.
    pub fn inspection(&self) -> (c: Inspection)
        requires
            self.wf(),
        ensures
            c == spec_inspection(*self.binary, self.sections@, self.symbols@, self.selected),
    {
        broadcast use vstd::std_specs::hash::group_hash_axioms;

        match self.selected {
            None => Inspection::Nothing,
            Some(CurrentView::Section(i)) => {
                if self.sections.contains(&i) {
                    Inspection::Section(i)
                } else {
                    Inspection::MissingSection
                }
            },
            Some(CurrentView::Symbol(i)) => {
                if self.symbols.contains(&i) {
                    Inspection::Symbol(i, self.binary.symbols[i].kind)
                } else {
                    Inspection::MissingSymbol
                }
            },
        }
    }
}

/// The name shown for an open element: that of the section at `i` when
/// `sections`, else that of the symbol at `i`.
pub open spec fn open_name(b: BinaryObject, sections: bool, i: usize) -> Seq<char> {
    if sections {
        b.sections@[i as int].name@
    } else {
        b.symbols@[i as int].name@
    }
}

/// The message of the button that inspects the open element `i` in window `id`.
pub open spec fn view_message(id: usize, sections: bool, i: usize) -> Message {
    Message::BinaryWindow(id, if sections { Event::ViewSection(i) } else { Event::ViewSymbol(i) })
}

/// The message of the button that closes the open element `i` in window `id`.
pub open spec fn close_message(id: usize, sections: bool, i: usize) -> Message {
    Message::BinaryWindow(id, if sections { Event::CloseSection(i) } else { Event::CloseSymbol(i) })
}

/// Whether `rows` lists each element of `open` once, each with its name and
/// the messages of its inspect and close buttons.
pub open spec fn lists_open(
    rows: Seq<(usize, String, Message, Message)>,
    open: Set<usize>,
    b: BinaryObject,
    id: usize,
    sections: bool,
) -> bool {
    &&& rows.len() == open.len()
    &&& forall|t: int|
        #![trigger rows[t]]
        0 <= t < rows.len() ==> {
            &&& open.contains(rows[t].0)
            &&& rows[t].1@ == open_name(b, sections, rows[t].0)
            &&& rows[t].2 == view_message(id, sections, rows[t].0)
            &&& rows[t].3 == close_message(id, sections, rows[t].0)
        }
    &&& forall|s: int, t: int| 0 <= s < t < rows.len() ==> #[trigger] rows[s].0 != #[trigger] rows[t].0
    &&& forall|k: usize| #[trigger] open.contains(k) ==> exists|t: int| 0 <= t < rows.len() && rows[t].0 == k
}

impl InspectionView {
    /// The rows of the section pane: each open section, with its name and
    /// the messages of its inspect and close buttons. The order is the one
    /// in which the set of open sections is walked.
    pub fn section_rows(&self) -> (r: Vec<(usize, String, Message, Message)>)
        requires
            self.wf(),
        ensures
            lists_open(r@, self.sections@, *self.binary, self.id, true),
    {
        self.rows_of(true)
    }

    /// The rows of the symbol pane: each open symbol, with its name and the
    /// messages of its inspect and close buttons. The order is the one in
    /// which the set of open symbols is walked.
    pub fn symbol_rows(&self) -> (r: Vec<(usize, String, Message, Message)>)
        requires
            self.wf(),
        ensures
            lists_open(r@, self.symbols@, *self.binary, self.id, false),
    {
        self.rows_of(false)
    }

    /// The rows of the section pane when `sections`, else of the symbol pane.
    fn rows_of(&self, sections: bool) -> (r: Vec<(usize, String, Message, Message)>)
        requires
            self.wf(),
        ensures
            lists_open(r@, if sections { self.sections@ } else { self.symbols@ }, *self.binary, self.id, sections),
    {
        broadcast use vstd::std_specs::hash::group_hash_axioms;

        let open: &HashSet<usize> = if sections { &self.sections } else { &self.symbols };
        let ghost keys = open.iter().remaining().unref();
        let mut r: Vec<(usize, String, Message, Message)> = Vec::new();
        for k in it: open.iter()
            invariant
                self.wf(),
                open@ == if sections { self.sections@ } else { self.symbols@ },
                keys == it.seq().unref(),
                keys.to_set() == open@,
                keys.no_duplicates(),
                keys.len() == open@.len(),
                r@.len() == it.index(),
                forall|t: int|
                    #![trigger r@[t]]
                    0 <= t < r@.len() ==> {
                        &&& r@[t].0 == keys[t]
                        &&& r@[t].1@ == open_name(*self.binary, sections, r@[t].0)
                        &&& r@[t].2 == view_message(self.id, sections, r@[t].0)
                        &&& r@[t].3 == close_message(self.id, sections, r@[t].0)
                    },
        {
            let i: usize = *k;
            assert(keys.contains(i)) by {
                assert(keys[it.index()] == i);
            }
            assert(open@.contains(i));
            let name = if sections {
                self.binary.sections[i].name.clone()
            } else {
                self.binary.symbols[i].name.clone()
            };
            let view = if sections { Event::ViewSection(i) } else { Event::ViewSymbol(i) };
            let close = if sections { Event::CloseSection(i) } else { Event::CloseSymbol(i) };
            r.push((i, name, view.global(self.id), close.global(self.id)));
        }
        proof {
            let set = open@;
            assert forall|t: int| 0 <= t < r@.len() implies set.contains(#[trigger] r@[t].0) by {
                assert(keys.contains(keys[t]));
            }
            assert forall|k: usize| #[trigger] set.contains(k) implies exists|t: int| 0 <= t < r@.len() && r@[t].0 == k by {
                assert(keys.to_set().contains(k));
                let t = keys.index_of(k);
                assert(r@[t].0 == k);
            }
        }
        r
    }
}

} // verus!

verus! {

/// Closing an element that was opened from a state where it was not open
/// gives back the open elements of that state.
pub proof fn law_close_undoes_add(open: Set<usize>, i: usize)
    requires
        !open.contains(i),
    ensures
        open.insert(i).remove(i) == open,
{
    assert(open.insert(i).remove(i) =~= open);
}

} // verus!
