//! USB device selector, first version: the device list has one more level,
//! the list of configurations of a device, and interfaces are named by
//! number and alternate setting.

use vstd::prelude::*;

use std::collections::HashMap;

use crate::usb::device::USBDevice;

use super::{connected_shown, show_device};

verus! {

/// Expansion state of a device.
pub struct ShowState {
    /// Indicates if the device is expanded.
    pub device: bool,
    /// Indicates if the config list is expanded.
    pub configlist: bool,
}

impl ShowState {
    /// Creates the state of a newly seen device: expanded, with its
    /// configuration list collapsed.
    pub fn new() -> (s: Self)
        ensures
            s.device,
            !s.configlist,
    {
        Self { device: true, configlist: false }
    }
}

/// A request to expand or collapse an element of the device list.
#[derive(Clone, Copy, Debug, Eq, PartialEq, Structural)]
pub enum ShowAction {
    /// Indicates a show action for a device.
    Device(bool, usize),
    /// Indicates a show action for a configuration list.
    ConfigList(bool, usize),
    /// Indicates a show action for a configuration.
    Config(bool, usize, u8),
    /// Indicates a show action for an interface: state, device key,
    /// configuration index, interface number and alternate setting.
    Interface(bool, usize, u8, u8, u8),
}

/// A message of the selector.
#[derive(Clone, Copy, Debug, Eq, PartialEq, Structural)]
pub enum Message {
    /// A new show action occured.
    Show(ShowAction),
}

impl From<ShowAction> for Message {
    fn from(action: ShowAction) -> (m: Message) {
        Message::Show(action)
    }
}

impl vstd::std_specs::convert::FromSpecImpl<ShowAction> for Message {
    open spec fn obeys_from_spec() -> bool {
        true
    }

    open spec fn from_spec(v: ShowAction) -> Message {
        Message::Show(v)
    }
}

/// `post` is the map of connected devices `pre` after the action.
pub open spec fn showaction_done(pre: Map<usize, USBDevice>, action: ShowAction, post: Map<usize, USBDevice>) -> bool {
    match action {
        ShowAction::Device(state, key) => connected_shown(pre, key, state, None, None, None, post),
        ShowAction::ConfigList(state, key) => if pre.contains_key(key) {
            post == pre.insert(key, USBDevice { showlist: state, ..pre[key] })
        } else {
            post == pre
        },
        ShowAction::Config(state, key, index) => connected_shown(pre, key, state, Some(index), None, None, post),
        ShowAction::Interface(state, key, index, number, alternate) => connected_shown(
            pre,
            key,
            state,
            Some(index),
            Some(number),
            Some(alternate),
            post,
        ),
    }
}

/// Performs the given show action on the map of connected devices.
pub fn showaction(connected: &mut HashMap<usize, USBDevice>, action: ShowAction)
    ensures
        showaction_done(old(connected)@, action, final(connected)@),
{
    broadcast use vstd::std_specs::hash::group_hash_axioms;

    let (key, state, cfg, num, alt, list) = match action {
        ShowAction::Device(state, key) => (key, state, None, None, None, false),
        ShowAction::ConfigList(state, key) => (key, state, None, None, None, true),
        ShowAction::Config(state, key, index) => (key, state, Some(index), None, None, false),
        ShowAction::Interface(state, key, index, number, alternate) => (
            key,
            state,
            Some(index),
            Some(number),
            Some(alternate),
            false,
        ),
    };
    match connected.remove(&key) {
        Some(mut dev) => {
            let ghost pre_dev = dev;
            if list {
                dev.showlist = state;
            } else {
                show_device(&mut dev, state, cfg, num, alt);
            }
            let ghost mid = connected@;
            connected.insert(key, dev);
            assert(mid == old(connected)@.remove(key));
            assert(connected@ =~= old(connected)@.insert(key, dev));
        },
        None => {
            assert(connected@ =~= old(connected)@);
        },
    }
}

/// Checks that the given show state exists. If it does not, it creates a new
/// showstate.
pub fn showstate(show: &mut HashMap<usize, ShowState>, key: &usize)
    ensures
        final(show)@ == (if old(show)@.contains_key(*key) {
            old(show)@
        } else {
            old(show)@.insert(*key, ShowState { device: true, configlist: false })
        }),
{
    broadcast use vstd::std_specs::hash::group_hash_axioms;

    if show.contains_key(key) {
        return;
    }
    show.insert(*key, ShowState::new());
}

/// Processes a message of the selector on the map of connected devices.
pub fn update(connected: &mut HashMap<usize, USBDevice>, msg: Message)
    ensures
        match msg {
            Message::Show(action) => showaction_done(old(connected)@, action, final(connected)@),
        },
{
    match msg {
        Message::Show(action) => showaction(connected, action),
    }
}

} // verus!
