//! Common USB descriptions.

use vstd::prelude::*;

verus! {

/// Full address of an endpoint: the device, the configuration, the interface
/// and the endpoint number.
#[derive(Debug, Clone, Copy, PartialEq, Eq)]
pub struct USBTarget {
    /// Vendor and product IDs of the device.
    pub ids: (u16, u16),
    /// Bus and address of the device.
    pub bus: (u8, u8),
    /// Configuration index.
    pub config: u8,
    /// Interface number.
    pub interface: u8,
    /// Alternate setting of the interface.
    pub alternate: u8,
    /// Endpoint number.
    pub endpoint: u8,
}

impl USBTarget {
    /// Creates a new `USBTarget`.
    pub fn new(ids: (u16, u16), bus: (u8, u8), config: u8, interface: u8, alternate: u8, endpoint: u8) -> (t: Self)
        ensures
            t == (USBTarget { ids, bus, config, interface, alternate, endpoint }),
    {
        USBTarget { ids, bus, config, interface, alternate, endpoint }
    }
}

} // verus!
