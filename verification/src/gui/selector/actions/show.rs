//! Show actions of the USB selector.

use vstd::prelude::*;

verus! {

/// Common trait for all show actions: an action names a device, and possibly
/// one of its configurations and one of that configuration's interfaces.
pub trait ShowAction: Send + Sync + 'static {
    /// The show state the action requests.
    spec fn spec_state(&self) -> bool;

    /// The key of the device the action names.
    spec fn spec_device(&self) -> usize;

    /// The configuration the action names, if any.
    spec fn spec_configuration(&self) -> Option<u8>;

    /// The interface the action names, if any.
    spec fn spec_interface(&self) -> Option<u8>;

    /// The endpoint the action names, if any.
    spec fn spec_endpoint(&self) -> Option<u8>;

    /// Returns the show state.
    fn state(&self) -> (b: bool)
        ensures
            b == self.spec_state(),
    ;

    /// Returns the key of the device to show.
    fn device(&self) -> (k: usize)
        ensures
            k == self.spec_device(),
    ;

    /// Returns the key of the configuration to show.
    fn configuration(&self) -> (c: Option<u8>)
        ensures
            c == self.spec_configuration(),
    ;

    /// Returns the key of the interface to show.
    fn interface(&self) -> (i: Option<u8>)
        ensures
            i == self.spec_interface(),
    ;

    /// Returns the key of the endpoint to show.
    fn endpoint(&self) -> (e: Option<u8>)
        ensures
            e == self.spec_endpoint(),
    ;
}

/// Show action for device level.
#[derive(Clone, Copy, Debug)]
pub struct DevShowAction {
    /// The show state.
    pub state: bool,
    /// The key of the device.
    pub key: usize,
}

impl DevShowAction {
    /// Creates a new `DevShowAction`.
    pub fn new(state: bool, key: usize) -> (a: Self)
        ensures
            a.state == state,
            a.key == key,
    {
        Self { state, key }
    }
}

impl ShowAction for DevShowAction {
    open spec fn spec_state(&self) -> bool {
        self.state
    }

    open spec fn spec_device(&self) -> usize {
        self.key
    }

    open spec fn spec_configuration(&self) -> Option<u8> {
        None
    }

    open spec fn spec_interface(&self) -> Option<u8> {
        None
    }

    open spec fn spec_endpoint(&self) -> Option<u8> {
        None
    }

    fn state(&self) -> (b: bool) {
        self.state
    }

    fn device(&self) -> (k: usize) {
        self.key
    }

    fn configuration(&self) -> (c: Option<u8>) {
        None
    }

    fn interface(&self) -> (i: Option<u8>) {
        None
    }

    fn endpoint(&self) -> (e: Option<u8>) {
        None
    }
}

/// Show action for configuration level.
#[derive(Clone, Copy, Debug)]
pub struct CfgShowAction {
    /// The show state.
    pub state: bool,
    /// The key of the device.
    pub key: usize,
    /// The index of the configuration.
    pub idx: u8,
}

impl CfgShowAction {
    /// Creates a new `CfgShowAction`.
    pub fn new(state: bool, key: usize, idx: u8) -> (a: Self)
        ensures
            a.state == state,
            a.key == key,
            a.idx == idx,
    {
        Self { state, key, idx }
    }
}

impl ShowAction for CfgShowAction {
    open spec fn spec_state(&self) -> bool {
        self.state
    }

    open spec fn spec_device(&self) -> usize {
        self.key
    }

    open spec fn spec_configuration(&self) -> Option<u8> {
        Some(self.idx)
    }

    open spec fn spec_interface(&self) -> Option<u8> {
        None
    }

    open spec fn spec_endpoint(&self) -> Option<u8> {
        None
    }

    fn state(&self) -> (b: bool) {
        self.state
    }

    fn device(&self) -> (k: usize) {
        self.key
    }

    fn configuration(&self) -> (c: Option<u8>) {
        Some(self.idx)
    }

    fn interface(&self) -> (i: Option<u8>) {
        None
    }

    fn endpoint(&self) -> (e: Option<u8>) {
        None
    }
}

/// Show action for interface level.
#[derive(Clone, Copy, Debug)]
pub struct IfaceShowAction {
    /// The show state.
    pub state: bool,
    /// The key of the device.
    pub key: usize,
    /// The index of the configuration.
    pub idx: u8,
    /// The number of the interface.
    pub num: u8,
}

impl IfaceShowAction {
    /// Creates a new `IfaceShowAction`.
    pub fn new(state: bool, key: usize, idx: u8, num: u8) -> (a: Self)
        ensures
            a.state == state,
            a.key == key,
            a.idx == idx,
            a.num == num,
    {
        Self { state, key, idx, num }
    }
}

impl ShowAction for IfaceShowAction {
    open spec fn spec_state(&self) -> bool {
        self.state
    }

    open spec fn spec_device(&self) -> usize {
        self.key
    }

    open spec fn spec_configuration(&self) -> Option<u8> {
        Some(self.idx)
    }

    open spec fn spec_interface(&self) -> Option<u8> {
        Some(self.num)
    }

    open spec fn spec_endpoint(&self) -> Option<u8> {
        None
    }

    fn state(&self) -> (b: bool) {
        self.state
    }

    fn device(&self) -> (k: usize) {
        self.key
    }

    fn configuration(&self) -> (c: Option<u8>) {
        Some(self.idx)
    }

    fn interface(&self) -> (i: Option<u8>) {
        Some(self.num)
    }

    fn endpoint(&self) -> (e: Option<u8>) {
        None
    }
}

} // verus!
