//! Selector of the debug probe.

use vstd::prelude::*;

verus! {

/// A debug probe as the probe enumeration describes it.
pub struct ProbeInfo {
    /// Identifier of the probe.
    pub identifier: String,
    /// USB vendor ID.
    pub vendor_id: u16,
    /// USB product ID.
    pub product_id: u16,
    /// Serial number, if the probe reports one.
    pub serial_number: Option<String>,
}

/// The probe selector: the probes found, and the one selected, if any.
pub struct ProbeSelector {
    /// All probes found.
    pub probes: Vec<ProbeInfo>,
    /// The selected probe.
    pub selected: Option<ProbeInfo>,
}

impl ProbeSelector {
    /// Creates a probe selector over the probes found, none selected.
    pub fn new(probes: Vec<ProbeInfo>) -> (s: Self)
        ensures
            s.probes == probes,
            s.selected is None,
    {
        Self { probes, selected: None }
    }

    /// Replaces the list of probes with the probes found now.
    pub fn rebuild(&mut self, probes: Vec<ProbeInfo>)
        ensures
            final(self).probes == probes,
            final(self).selected == old(self).selected,
    {
        self.probes = probes;
    }

    /// The message of the "Open" button of the probe at position `i`: it
    /// asks the USB service to open that probe.
    pub fn open_message(&self, i: usize) -> (m: crate::gui::Message)
        requires
            i < self.probes@.len(),
        ensures
            m == crate::gui::Message::USB(crate::usb::Command::ProbeOpen(i)),
    {
        crate::gui::Message::USB(crate::usb::Command::ProbeOpen(i))
    }
}

} // verus!
