//! USB configuration views.

use vstd::prelude::*;

verus! {

/// The tab of the USB configuration component.
#[derive(Clone, Copy, Debug, Eq, PartialEq, Structural)]
pub enum USBSelectorView {
    /// USB configuration of `defmt`.
    Defmt,
    /// USB configuration of `probe-rs`.
    Probe,
}

} // verus!
