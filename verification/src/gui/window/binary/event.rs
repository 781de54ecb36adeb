//! Internal events of binary inspection windows.

use vstd::prelude::*;

use crate::gui::Message;

verus! {

/// An event of a binary inspection window.
#[derive(Clone, Debug)]
pub enum Event {
    /// Open the given section in the list of open sections.
    OpenSection(usize),
    /// Open the given symbol in the list of open symbols.
    OpenSymbol(usize),
    /// The search input was modified.
    SearchInput(String),
    /// Set the symbol function filter.
    SetSymFunctions(bool),
    /// Set the symbol object filter.
    SetSymObjects(bool),
    /// Set the filter of all symbols that are not objects or functions.
    SetSymOther(bool),
    /// Inspect the given section.
    ViewSection(usize),
    /// Inspect the given symbol.
    ViewSymbol(usize),
    /// Close the given section.
    CloseSection(usize),
    /// Close the given symbol.
    CloseSymbol(usize),
}

impl Event {
    /// Converts an `Event` into a `Message` for the given window ID.
    pub fn global(self, id: usize) -> (m: Message)
        ensures
            m == Message::BinaryWindow(id, self),
    {
        Message::BinaryWindow(id, self)
    }
}

} // verus!
