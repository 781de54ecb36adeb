//! Debug window: the components of a debug session with a target.

use vstd::prelude::*;

verus! {

/// All components of the debug window.
#[derive(Clone, Copy, Debug, PartialEq, Eq, Structural)]
pub enum DebugWindowComponent {
    /// View of the target's cores.
    Cores,
    /// View of the code execution state of the target's cores.
    Code,
    /// View of the target's peripherals.
    Peripherals,
}

} // verus!
