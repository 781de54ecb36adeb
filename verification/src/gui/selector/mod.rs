//! USB device selector over the map of connected devices, whose expansion
//! flags live in the device descriptions themselves.

pub mod actions;
pub mod rows;
mod message;
pub mod modv1;

pub use self::message::Message;

use vstd::prelude::*;

use std::collections::HashMap;

use crate::usb::device::{first_config, first_interface, USBConfig, USBDevice, USBInterface};

use self::actions::show::ShowAction;

verus! {

/// `post` is the configuration `pre` after a show request with the given
/// state for the interface `num` (with the alternate setting `alt`, when one
/// is given): without an interface, the configuration's own flag is set;
/// with one, the flag of the first matching interface is set, if there is one.
pub open spec fn config_shown(pre: USBConfig, state: bool, num: Option<u8>, alt: Option<u8>, post: USBConfig) -> bool {
    match num {
        None => post == USBConfig { expanded: state, ..pre },
        Some(n) => {
            &&& post == USBConfig { interfaces: post.interfaces, ..pre }
            &&& if exists|j: int| first_interface(pre.interfaces@, n, alt, j) {
                let j = choose|j: int| first_interface(pre.interfaces@, n, alt, j);
                post.interfaces@ == pre.interfaces@.update(
                    j,
                    USBInterface { expanded: state, ..pre.interfaces@[j] },
                )
            } else {
                post.interfaces@ == pre.interfaces@
            }
        },
    }
}

/// `post` is the device `pre` after a show request with the given state for
/// the configuration `cfg` and interface `num`: without a configuration, the
/// device's own flag is set; with one, the request goes to the first
/// configuration with that index, if there is one.
pub open spec fn device_shown(
    pre: USBDevice,
    state: bool,
    cfg: Option<u8>,
    num: Option<u8>,
    alt: Option<u8>,
    post: USBDevice,
) -> bool {
    match cfg {
        None => post == USBDevice { expanded: state, ..pre },
        Some(c) => {
            &&& post == USBDevice { configs: post.configs, ..pre }
            &&& if exists|i: int| first_config(pre.configs@, c, i) {
                let i = choose|i: int| first_config(pre.configs@, c, i);
                &&& post.configs@.len() == pre.configs@.len()
                &&& post.configs@ == pre.configs@.update(i, post.configs@[i])
                &&& config_shown(pre.configs@[i], state, num, alt, post.configs@[i])
            } else {
                post.configs@ == pre.configs@
            }
        },
    }
}

/// `post` is the map of connected devices `pre` after the show request: the
/// device with the request's key, if there is one, is updated as
/// `device_shown` says; nothing else changes.
pub open spec fn connected_shown(
    pre: Map<usize, USBDevice>,
    key: usize,
    state: bool,
    cfg: Option<u8>,
    num: Option<u8>,
    alt: Option<u8>,
    post: Map<usize, USBDevice>,
) -> bool {
    if pre.contains_key(key) {
        &&& post.contains_key(key)
        &&& post == pre.insert(key, post[key])
        &&& device_shown(pre[key], state, cfg, num, alt, post[key])
    } else {
        post == pre
    }
}

/// Applies a show request to one device.
pub fn show_device(dev: &mut USBDevice, state: bool, cfg: Option<u8>, num: Option<u8>, alt: Option<u8>)
    ensures
        device_shown(*old(dev), state, cfg, num, alt, *final(dev)),
{
    if let Some(c) = cfg {
        if let Some(i) = dev.find_config(c) {
            proof {
                assert(first_config(old(dev).configs@, c, i as int));
                assert forall|i2: int| first_config(old(dev).configs@, c, i2) implies i2 == i as int by {
                    if i2 < i {
                        assert(old(dev).configs@[i2].index != c);
                    } else if i2 > i {
                        assert(old(dev).configs@[i as int].index != c);
                    }
                }
            }
            if let Some(n) = num {
                if let Some(j) = dev.configs[i].find_interface(n, alt) {
                    proof {
                        let ifs = old(dev).configs@[i as int].interfaces@;
                        assert(first_interface(ifs, n, alt, j as int));
                        assert forall|j2: int| first_interface(ifs, n, alt, j2) implies j2 == j as int by {
                            if j2 < j {
                                assert(!crate::usb::device::interface_matches(ifs[j2], n, alt));
                            } else if j2 > j {
                                assert(!crate::usb::device::interface_matches(ifs[j as int], n, alt));
                            }
                        }
                    }
                    dev.configs[i].interfaces[j].expanded = state;
                } else {
                    assert(dev.configs@ =~= old(dev).configs@.update(i as int, dev.configs@[i as int]));
                }
            } else {
                dev.configs[i].expanded = state;
                assert(dev.configs@ =~= old(dev).configs@.update(i as int, dev.configs@[i as int]));
            }
        }
    } else {
        dev.expanded = state;
    }
}

/// Processes a show action on the map of connected devices: the named
/// device, configuration (by index) or interface (by number) has its flag
/// set to the action's state; a name that matches nothing changes nothing.
pub fn show<A: ShowAction + ?Sized>(connected: &mut HashMap<usize, USBDevice>, action: &A)
    ensures
        connected_shown(
            old(connected)@,
            action.spec_device(),
            action.spec_state(),
            action.spec_configuration(),
            action.spec_interface(),
            None,
            final(connected)@,
        ),
{
    broadcast use vstd::std_specs::hash::group_hash_axioms;

    // Get the device ID.
    let id = action.device();
    // Get the show state.
    let state = action.state();
    let cfg = action.configuration();
    let num = action.interface();
    match connected.remove(&id) {
        Some(mut dev) => {
            show_device(&mut dev, state, cfg, num, None);
            let ghost mid = connected@;
            connected.insert(id, dev);
            assert(mid == old(connected)@.remove(id));
            assert(connected@ =~= old(connected)@.insert(id, dev));
        },
        None => {
            assert(connected@ =~= old(connected)@);
        },
    }
}

/// Processes a message of the selector on the map of connected devices: a
/// show action is applied as `show` says.
pub fn update(connected: &mut HashMap<usize, USBDevice>, msg: Message)
    ensures
        match msg {
            Message::Show(action) => connected_shown(
                old(connected)@,
                action.spec_device(),
                action.spec_state(),
                action.spec_configuration(),
                action.spec_interface(),
                None,
                final(connected)@,
            ),
        },
{
    match msg {
        Message::Show(action) => show(connected, &*action),
    }
}

} // verus!
