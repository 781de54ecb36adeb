//! USB configuration view component.

use vstd::prelude::*;

use crate::usb::device::USBConfig;

use super::super::ShowAction;
use super::USBInterfaceView;

verus! {

/// The view of a configuration in the USB tree.
pub struct USBConfigView {
    /// Configuration index.
    pub index: u8,
    /// Views of the interfaces of this configuration.
    pub interfaces: Vec<USBInterfaceView>,
    /// The key of the device.
    pub key: usize,
    /// The interface list is expanded.
    pub expanded: bool,
}

impl USBConfigView {
    /// The view as freshly created from `r` for the device `key`.
    pub open spec fn created_from(self, r: &USBConfig, key: usize) -> bool {
        &&& self.index == r.index
        &&& self.key == key
        &&& !self.expanded
        &&& self.interfaces@.len() == r.interfaces@.len()
        &&& forall|i: int|
            0 <= i < r.interfaces@.len() ==> (#[trigger] self.interfaces@[i]).created_from(
                &r.interfaces@[i],
                key,
            )
    }

    /// `post` is the state of the view after the action `a`. An action names a
    /// configuration by its index; at level 1 it sets the configuration's own
    /// flag, at any other level it is handed to every interface.
    pub open spec fn spec_shown(self, a: ShowAction, post: Self) -> bool {
        &&& post.index == self.index
        &&& post.key == self.key
        &&& if a.idx == self.index {
            if a.level == 1 {
                post.expanded == a.state && post.interfaces@ == self.interfaces@
            } else {
                post.expanded == self.expanded && post.interfaces@ == self.interfaces@.map_values(
                    |v: USBInterfaceView| v.spec_show(a),
                )
            }
        } else {
            post.expanded == self.expanded && post.interfaces@ == self.interfaces@
        }
    }

    /// The action that the collapse button of this view sends.
    pub open spec fn spec_collapse(self) -> ShowAction {
        ShowAction { level: 1, key: self.key, idx: self.index, num: 0, state: !self.expanded }
    }

    /// Creates a new `USBConfigView`.
    pub fn create(reference: &USBConfig, key: usize) -> (v: Self)
        ensures
            v.created_from(reference, key),
    {
        let mut interfaces: Vec<USBInterfaceView> = Vec::new();
        let mut i: usize = 0;
        while i < reference.interfaces.len()
            invariant
                i <= reference.interfaces@.len(),
                interfaces@.len() == i,
                forall|j: int|
                    0 <= j < i ==> (#[trigger] interfaces@[j]).created_from(
                        &reference.interfaces@[j],
                        key,
                    ),
            decreases reference.interfaces@.len() - i,
        {
            interfaces.push(USBInterfaceView::create(&reference.interfaces[i], key));
            i = i + 1;
        }
        Self { index: reference.index, interfaces, key, expanded: false }
    }

    /// Processes a show action. Returns true if the action names this
    /// configuration.
    pub fn show(&mut self, action: &ShowAction) -> (hit: bool)
        ensures
            hit == (action.idx == old(self).index),
            old(self).spec_shown(*action, *final(self)),
    {
        if action.idx == self.index {
            if action.level == 1 {
                self.expanded = action.state;
            } else {
                let ghost pre = self.interfaces@;
                let mut i: usize = 0;
                while i < self.interfaces.len()
                    invariant
                        i <= self.interfaces@.len(),
                        self.interfaces@.len() == pre.len(),
                        self.index == old(self).index,
                        self.key == old(self).key,
                        self.expanded == old(self).expanded,
                        pre == old(self).interfaces@,
                        forall|j: int| 0 <= j < i ==> self.interfaces@[j] == pre[j].spec_show(*action),
                        forall|j: int| i <= j < pre.len() ==> self.interfaces@[j] == pre[j],
                    decreases pre.len() - i,
                {
                    self.interfaces[i].show(action);
                    i = i + 1;
                }
                assert(self.interfaces@ =~= pre.map_values(|v: USBInterfaceView| v.spec_show(*action)));
            }
            return true;
        }
        false
    }

    /// The action that the collapse button of this view sends.
    pub fn collapse(&self) -> (a: ShowAction)
        ensures
            a == self.spec_collapse(),
    {
        ShowAction::config(!self.expanded, self.key, self.index)
    }
}

} // verus!
