//! USB device view component.

use vstd::prelude::*;

use std::sync::Arc;

use crate::usb::device::USBDevice;

use super::super::ShowAction;
use super::USBConfigView;

verus! {

/// The view of a device in the USB tree.
pub struct USBDeviceView {
    /// Reference to the USB device information.
    pub reference: Arc<USBDevice>,
    /// Views of the configurations of this device.
    pub configurations: Vec<USBConfigView>,
    /// The key of the device.
    pub key: usize,
    /// The configuration list is expanded.
    pub expanded: bool,
}

impl USBDeviceView {
    /// The view as freshly created from `r` for the device `key`.
    pub open spec fn created_from(self, r: USBDevice, key: usize) -> bool {
        &&& *self.reference == r
        &&& self.key == key
        &&& !self.expanded
        &&& self.configurations@.len() == r.configs@.len()
        &&& forall|i: int|
            0 <= i < r.configs@.len() ==> (#[trigger] self.configurations@[i]).created_from(
                &r.configs@[i],
                key,
            )
    }

    /// `post` is the state of the view after the action `a`. An action names
    /// a device by its key; at level 0 it sets the device's own flag, at any
    /// other level it is handed to every configuration.
    pub open spec fn spec_shown(self, a: ShowAction, post: Self) -> bool {
        &&& post.key == self.key
        &&& post.reference == self.reference
        &&& if a.key == self.key {
            if a.level == 0 {
                post.expanded == a.state && post.configurations@ == self.configurations@
            } else {
                &&& post.expanded == self.expanded
                &&& post.configurations@.len() == self.configurations@.len()
                &&& forall|i: int|
                    0 <= i < self.configurations@.len() ==> (#[trigger] self.configurations@[i]).spec_shown(
                        a,
                        post.configurations@[i],
                    )
            }
        } else {
            post.expanded == self.expanded && post.configurations@ == self.configurations@
        }
    }

    /// The action that the collapse button of this view sends.
    pub open spec fn spec_collapse(self) -> ShowAction {
        ShowAction { level: 0, key: self.key, idx: 0, num: 0, state: !self.expanded }
    }

    /// Returns the key of this device.
    pub fn key(&self) -> (k: usize)
        ensures
            k == self.key,
    {
        self.key
    }

    /// Creates a new `USBDeviceView`.
    pub fn create(reference: Arc<USBDevice>, key: usize) -> (v: Self)
        ensures
            v.created_from(*reference, key),
    {
        let mut configurations: Vec<USBConfigView> = Vec::new();
        let mut i: usize = 0;
        while i < reference.configs.len()
            invariant
                i <= reference.configs@.len(),
                configurations@.len() == i,
                forall|j: int|
                    0 <= j < i ==> (#[trigger] configurations@[j]).created_from(
                        &reference.configs@[j],
                        key,
                    ),
            decreases reference.configs@.len() - i,
        {
            configurations.push(USBConfigView::create(&reference.configs[i], key));
            i = i + 1;
        }
        Self { reference, configurations, key, expanded: false }
    }

    /// Processes a show action. Returns true if the action names this device.
    pub fn show(&mut self, action: &ShowAction) -> (hit: bool)
        ensures
            hit == (action.key == old(self).key),
            old(self).spec_shown(*action, *final(self)),
            !hit ==> *final(self) == *old(self),
    {
        if action.key == self.key {
            if action.level == 0 {
                self.expanded = action.state;
            } else {
                let ghost pre = self.configurations@;
                let mut i: usize = 0;
                while i < self.configurations.len()
                    invariant
                        i <= self.configurations@.len(),
                        self.configurations@.len() == pre.len(),
                        self.reference == old(self).reference,
                        self.key == old(self).key,
                        self.expanded == old(self).expanded,
                        pre == old(self).configurations@,
                        forall|j: int|
                            0 <= j < i ==> (#[trigger] pre[j]).spec_shown(
                                *action,
                                self.configurations@[j],
                            ),
                        forall|j: int| i <= j < pre.len() ==> self.configurations@[j] == pre[j],
                    decreases pre.len() - i,
                {
                    self.configurations[i].show(action);
                    i = i + 1;
                }
            }
            return true;
        }
        false
    }

    /// The action that the collapse button of this view sends.
    pub fn collapse(&self) -> (a: ShowAction)
        ensures
            a == self.spec_collapse(),
    {
        ShowAction::device(!self.expanded, self.key)
    }
}

} // verus!
