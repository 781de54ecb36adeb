//! Kinds of element that the inspection view shows.

use vstd::prelude::*;

verus! {

/// The kind of element shown in an inspection view.
#[derive(Clone, Copy, Debug, PartialEq, Eq, Structural)]
pub enum View {
    /// The view of a section.
    Section,
    /// The view of a symbol.
    Symbol,
}

} // verus!
