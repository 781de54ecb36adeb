//! This component controls the configuration of the `defmt` and `probe-rs`
//! USB components.

mod configuration;
mod message;
pub mod probe;
pub mod selector;
pub mod target;
mod view;

pub use configuration::{DefmtConfig, ProbeConfig};
pub use message::Message;
pub use view::USBSelectorView;

use vstd::prelude::*;

use crate::usb::common::USBTarget;
use crate::usb::Command;

use probe::{ProbeInfo, ProbeSelector};
use selector::{ConnectedDevices, ShowAction, USBSelector};

verus! {

/// State of the USB configuration component: the selected tab, the `defmt`
/// device selector and the probe selector.
pub struct USBConfiguration {
    /// Currently selected view.
    pub selected: USBSelectorView,
    /// USB selector for `defmt`.
    pub defmt: USBSelector<DefmtConfig>,
    /// Selector of the debug probe.
    pub probe: ProbeSelector,
}

impl USBConfiguration {
    /// Creates a new `USBConfiguration` component, on the `defmt` tab, with
    /// an empty device tree, over the probes found.
    pub fn new(probes: Vec<ProbeInfo>) -> (c: Self)
        ensures
            c.selected == USBSelectorView::Defmt,
            c.defmt.tree@.len() == 0,
            c.defmt.wf(),
            c.probe.probes == probes,
            c.probe.selected is None,
    {
        Self {
            selected: USBSelectorView::Defmt,
            defmt: USBSelector::new(DefmtConfig::new()),
            probe: ProbeSelector::new(probes),
        }
    }

    /// Updates the component: a tab selection switches the tab, a `defmt`
    /// show action goes to the `defmt` tree, any other event is ignored.
    pub fn update(&mut self, event: Message)
        requires
            old(self).defmt.wf(),
        ensures
            final(self).defmt.wf(),
            match event {
                Message::Selected(s) => final(self).selected == s && final(self).defmt == old(self).defmt
                    && final(self).probe == old(self).probe,
                Message::Defmt(action) => {
                    &&& final(self).selected == old(self).selected
                    &&& final(self).probe == old(self).probe
                    &&& selector::tree_shown(old(self).defmt.tree@, action, final(self).defmt.tree@)
                },
                _ => final(self).selected == old(self).selected && final(self).defmt == old(self).defmt
                    && final(self).probe == old(self).probe,
            },
    {
        match event {
            Message::Selected(selected) => self.selected = selected,
            Message::Defmt(action) => {
                self.defmt.show(&action);
                proof {
                    selector::laws::law_show_keeps_distinct(old(self).defmt.tree@, action, self.defmt.tree@);
                }
            },
            _ => {},
        }
    }

    /// Rebuilds the lists of USB devices and of probes, from the devices
    /// and probes connected now.
    pub fn rebuild(&mut self, connected: &ConnectedDevices, probes: Vec<ProbeInfo>)
        requires
            old(self).defmt.wf(),
        ensures
            final(self).defmt.wf(),
            final(self).selected == old(self).selected,
            selector::tree_rebuilt(old(self).defmt.tree@, selector::connected_devices(*connected), final(self).defmt.tree@),
            final(self).probe.probes == probes,
            final(self).probe.selected == old(self).probe.selected,
    {
        self.defmt.rebuild(connected);
        self.probe.rebuild(probes);
    }

    /// The `defmt` tab button is enabled: it is, when the other tab is shown.
    pub fn defmt_tab_enabled(&self) -> (b: bool)
        ensures
            b == (self.selected == USBSelectorView::Probe),
    {
        self.selected == USBSelectorView::Probe
    }

    /// The `probe-rs` tab button is enabled: it is, when the other tab is
    /// shown.
    pub fn probe_tab_enabled(&self) -> (b: bool)
        ensures
            b == (self.selected == USBSelectorView::Defmt),
    {
        self.selected == USBSelectorView::Defmt
    }
}

/// The message for a show action of the `defmt` selector.
pub fn defmtaction(action: ShowAction) -> (m: crate::gui::Message)
    ensures
        m == crate::gui::Message::USBConfiguration(Message::Defmt(action)),
{
    crate::gui::Message::USBConfiguration(Message::Defmt(action))
}

/// The message for a show action of the `probe-rs` selector.
pub fn probeaction(action: ShowAction) -> (m: crate::gui::Message)
    ensures
        m == crate::gui::Message::USBConfiguration(Message::Probe(action)),
{
    crate::gui::Message::USBConfiguration(Message::Probe(action))
}

/// The message for the selection of an endpoint in the `defmt` selector: it
/// opens a `defmt` stream on it.
pub fn defmtselect(target: USBTarget) -> (m: crate::gui::Message)
    ensures
        m == crate::gui::Message::USB(Command::DefmtOpen(target)),
{
    crate::gui::Message::USB(Command::DefmtOpen(target))
}

/// The message for the selection of an endpoint in the `probe-rs` selector:
/// none yet.
pub fn probeselect(target: USBTarget) -> (m: crate::gui::Message)
    ensures
        m == crate::gui::Message::Empty,
{
    crate::gui::Message::Empty
}

} // verus!
