//! USB element view show action.

use vstd::prelude::*;

verus! {

/// A request to expand or collapse one element of the USB tree.
#[derive(Clone, Copy, Debug, Eq, PartialEq, Structural)]
pub struct ShowAction {
    /// Level of the collapse: 0 for a device, 1 for a configuration, 2 for an
    /// interface.
    pub level: usize,
    /// Key of the device.
    pub key: usize,
    /// Configuration index.
    pub idx: u8,
    /// Interface number.
    pub num: u8,
    /// Desired state of the collapsable region.
    pub state: bool,
}

impl ShowAction {
    /// Creates the `ShowAction` for a device view.
    pub fn device(state: bool, key: usize) -> (a: Self)
        ensures
            a == (ShowAction { level: 0, key, idx: 0, num: 0, state }),
    {
        ShowAction { level: 0, key, idx: 0, num: 0, state }
    }

    /// Creates the `ShowAction` for a configuration view.
    pub fn config(state: bool, key: usize, idx: u8) -> (a: Self)
        ensures
            a == (ShowAction { level: 1, key, idx, num: 0, state }),
    {
        ShowAction { level: 1, key, idx, num: 0, state }
    }

    /// Creates the `ShowAction` for an interface view.
    pub fn interface(state: bool, key: usize, idx: u8, num: u8) -> (a: Self)
        ensures
            a == (ShowAction { level: 2, key, idx, num, state }),
    {
        ShowAction { level: 2, key, idx, num, state }
    }
}

} // verus!
