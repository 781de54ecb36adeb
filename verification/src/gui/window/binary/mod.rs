//! Binary inspection window.

pub mod event;
pub mod inspection;
pub mod object;
pub mod search;

use vstd::prelude::*;

use std::sync::Arc;

use self::event::Event;
use self::inspection::InspectionView;
use self::object::{share, BinaryObject};
use self::search::SearchEngine;

verus! {

/// The panes of a binary inspection window.
#[derive(Clone, Copy, Debug, PartialEq, Eq, Hash, Structural)]
pub enum BinaryWindowComponent {
    /// Information view.
    Info,
    /// Search view.
    Search,
    /// Inspection view.
    Inspection,
}

/// A binary inspection window: an object, the path it was read from, its
/// search engine and its inspection view.
pub struct BinaryWindow {
    /// Window ID; tells this window from other windows of its type.
    pub id: usize,
    /// This window's binary object.
    pub file: Arc<BinaryObject>,
    /// The path of this window's binary file.
    pub path: String,
    /// The search engine.
    pub search: SearchEngine,
    /// The inspection view.
    pub inspection: InspectionView,
}

impl BinaryWindow {
    /// Well-formedness: both components work on the window's object.
    pub open spec fn wf(&self) -> bool {
        &&& self.search.wf()
        &&& self.inspection.wf()
        &&& *self.search.binary == *self.file
        &&& *self.inspection.binary == *self.file
        &&& self.search.id == self.id
        &&& self.inspection.id == self.id
    }

    /// The events that the window can process: those that open an element
    /// name one of the object.
    pub open spec fn accepts(&self, event: Event) -> bool {
        match event {
            Event::OpenSection(i) => i < self.file.sections@.len(),
            Event::OpenSymbol(i) => i < self.file.symbols@.len(),
            _ => true,
        }
    }

    /// Creates a window for the given object, with an empty search and
    /// nothing open.
    pub fn new(id: usize, file: Arc<BinaryObject>, path: String) -> (w: Self)
        ensures
            w.wf(),
            w.id == id,
            *w.file == *file,
            w.path == path,
            w.search.input@ == Seq::<char>::empty(),
            w.search.symobjects && w.search.symfunctions && w.search.symother,
            w.inspection.sections@ == Set::<usize>::empty(),
            w.inspection.symbols@ == Set::<usize>::empty(),
            w.inspection.selected == None::<inspection::CurrentView>,
    {
        let search = SearchEngine::new(id, share(&file));
        let inspection = InspectionView::new(id, share(&file));
        Self { id, file, path, search, inspection }
    }

    /// Processes an event of the window.
    pub fn update(&mut self, event: Event)
        requires
            old(self).wf(),
            old(self).accepts(event),
        ensures
            final(self).wf(),
            final(self).id == old(self).id,
            final(self).file == old(self).file,
            final(self).path == old(self).path,
            match event {
                Event::OpenSection(i) => {
                    &&& final(self).search == old(self).search
                    &&& final(self).inspection.sections@ == old(self).inspection.sections@.insert(i)
                    &&& final(self).inspection.symbols@ == old(self).inspection.symbols@
                    &&& final(self).inspection.selected == old(self).inspection.selected
                },
                Event::OpenSymbol(i) => {
                    &&& final(self).search == old(self).search
                    &&& final(self).inspection.symbols@ == old(self).inspection.symbols@.insert(i)
                    &&& final(self).inspection.sections@ == old(self).inspection.sections@
                    &&& final(self).inspection.selected == old(self).inspection.selected
                },
                Event::SearchInput(s) => {
                    &&& final(self).inspection == old(self).inspection
                    &&& final(self).search == (SearchEngine { input: s, ..old(self).search })
                },
                Event::SetSymFunctions(b) => {
                    &&& final(self).inspection == old(self).inspection
                    &&& final(self).search == (SearchEngine { symfunctions: b, ..old(self).search })
                },
                Event::SetSymObjects(b) => {
                    &&& final(self).inspection == old(self).inspection
                    &&& final(self).search == (SearchEngine { symobjects: b, ..old(self).search })
                },
                Event::SetSymOther(b) => {
                    &&& final(self).inspection == old(self).inspection
                    &&& final(self).search == (SearchEngine { symother: b, ..old(self).search })
                },
                Event::ViewSection(i) => {
                    &&& final(self).search == old(self).search
                    &&& final(self).inspection == (InspectionView {
                        selected: Some(inspection::CurrentView::Section(i)),
                        ..old(self).inspection
                    })
                },
                Event::ViewSymbol(i) => {
                    &&& final(self).search == old(self).search
                    &&& final(self).inspection == (InspectionView {
                        selected: Some(inspection::CurrentView::Symbol(i)),
                        ..old(self).inspection
                    })
                },
                Event::CloseSection(i) => {
                    &&& final(self).search == old(self).search
                    &&& final(self).inspection.sections@ == old(self).inspection.sections@.remove(i)
                    &&& final(self).inspection.symbols@ == old(self).inspection.symbols@
                    &&& final(self).inspection.selected == old(self).inspection.selected
                },
                Event::CloseSymbol(i) => {
                    &&& final(self).search == old(self).search
                    &&& final(self).inspection.symbols@ == old(self).inspection.symbols@.remove(i)
                    &&& final(self).inspection.sections@ == old(self).inspection.sections@
                    &&& final(self).inspection.selected == old(self).inspection.selected
                },
            },
    {
        match event {
            Event::OpenSection(index) => self.inspection.addsection(index),
            Event::OpenSymbol(index) => self.inspection.addsymbol(index),
            Event::SearchInput(string) => self.search.input = string,
            Event::SetSymFunctions(flag) => self.search.symfunctions = flag,
            Event::SetSymObjects(flag) => self.search.symobjects = flag,
            Event::SetSymOther(flag) => self.search.symother = flag,
            Event::ViewSection(index) => self.inspection.opensection(index),
            Event::ViewSymbol(index) => self.inspection.opensymbol(index),
            Event::CloseSection(index) => self.inspection.closesection(index),
            Event::CloseSymbol(index) => self.inspection.closesymbol(index),
        }
    }
}

} // verus!
