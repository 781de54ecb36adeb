//! Model of the USB devices known to the application and of the commands
//! that the interface sends to the USB service.

pub mod common;
pub mod device;

use vstd::prelude::*;

use self::common::USBTarget;

verus! {

/// A command for the USB service.
#[derive(Debug, Clone, Copy, PartialEq, Eq)]
pub enum Command {
    /// Open a `defmt` stream on the given endpoint.
    DefmtOpen(USBTarget),
    /// Open a connection to the probe at this position in the list of
    /// probes found.
    ProbeOpen(usize),
}

} // verus!
