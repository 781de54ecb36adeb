//! USB Interface view.

use vstd::prelude::*;

use crate::usb::device::USBInterface;

use super::super::ShowAction;
use super::USBEndpointView;

verus! {

/// The view of an interface in the USB tree.
pub struct USBInterfaceView {
    /// Index of the configuration that holds the interface.
    pub index: u8,
    /// Interface number.
    pub number: u8,
    /// Views of the endpoints of the interface.
    pub endpoints: Vec<USBEndpointView>,
    /// The key of the device.
    pub key: usize,
    /// The endpoint list is expanded.
    pub expanded: bool,
}

impl USBInterfaceView {
    /// The view as freshly created from `r` for the device `key`: collapsed,
    /// with one endpoint view per endpoint, in order.
    pub open spec fn created_from(self, r: &USBInterface, key: usize) -> bool {
        &&& self.index == r.index
        &&& self.number == r.number
        &&& self.key == key
        &&& !self.expanded
        &&& self.endpoints@.len() == r.endpoints@.len()
        &&& forall|i: int|
            0 <= i < r.endpoints@.len() ==> (#[trigger] self.endpoints@[i]).reference
                == r.endpoints@[i] && self.endpoints@[i].key == key
    }

    /// The state of the view after the action `a`: an action names an
    /// interface by its number.
    pub open spec fn spec_show(self, a: ShowAction) -> Self {
        if a.num == self.number {
            USBInterfaceView { expanded: a.state, ..self }
        } else {
            self
        }
    }

    /// The action that the collapse button of this view sends.
    pub open spec fn spec_collapse(self) -> ShowAction {
        ShowAction { level: 2, key: self.key, idx: self.index, num: self.number, state: !self.expanded }
    }

    /// Creates a new `USBInterfaceView`.
    pub fn create(reference: &USBInterface, key: usize) -> (v: Self)
        ensures
            v.created_from(reference, key),
    {
        let mut endpoints: Vec<USBEndpointView> = Vec::new();
        let mut i: usize = 0;
        while i < reference.endpoints.len()
            invariant
                i <= reference.endpoints@.len(),
                endpoints@.len() == i,
                forall|j: int|
                    0 <= j < i ==> (#[trigger] endpoints@[j]).reference == reference.endpoints@[j]
                        && endpoints@[j].key == key,
            decreases reference.endpoints@.len() - i,
        {
            endpoints.push(USBEndpointView::create(reference.endpoints[i], key));
            i = i + 1;
        }
        Self { index: reference.index, number: reference.number, endpoints, key, expanded: false }
    }

    /// Processes a show action. Returns true if the action names this
    /// interface.
    pub fn show(&mut self, action: &ShowAction) -> (hit: bool)
        ensures
            hit == (action.num == old(self).number),
            *final(self) == old(self).spec_show(*action),
    {
        if action.num == self.number {
            self.expanded = action.state;
            return true;
        }
        false
    }

    /// The action that the collapse button of this view sends.
    pub fn collapse(&self) -> (a: ShowAction)
        ensures
            a == self.spec_collapse(),
    {
        ShowAction::interface(!self.expanded, self.key, self.index, self.number)
    }
}

} // verus!
