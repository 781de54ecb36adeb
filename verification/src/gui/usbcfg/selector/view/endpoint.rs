//! USB Endpoint view.

use vstd::prelude::*;

use crate::usb::common::USBTarget;
use crate::usb::device::USBEndpoint;

verus! {

/// The view of an endpoint in the USB tree.
pub struct USBEndpointView {
    /// Description of the endpoint.
    pub reference: USBEndpoint,
    /// The key of the device.
    pub key: usize,
}

impl USBEndpointView {
    /// Creates a new `USBEndpointView`.
    pub fn create(reference: USBEndpoint, key: usize) -> (v: Self)
        ensures
            v.reference == reference,
            v.key == key,
    {
        Self { reference, key }
    }

    /// The target that the "Select" button of this endpoint opens, if the
    /// endpoint offers one (bulk input endpoints of CDC ACM interfaces only).
    pub fn select(&self) -> (t: Option<USBTarget>)
        ensures
            t == (if self.reference.spec_selectable() {
                Some(self.reference.spec_target())
            } else {
                None
            }),
    {
        self.reference.target()
    }
}

} // verus!
