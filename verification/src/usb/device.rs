//! Description of a connected USB device: its configurations, interfaces and
//! endpoints, as read from the device descriptors.

use vstd::prelude::*;

use super::common::USBTarget;

verus! {

/// Transfer type of an endpoint.
#[derive(Debug, Clone, Copy, PartialEq, Eq, Structural)]
pub enum TransferType {
    Control,
    Isochronous,
    Bulk,
    Interrupt,
}

/// Direction of an endpoint.
#[derive(Debug, Clone, Copy, PartialEq, Eq, Structural)]
pub enum Direction {
    /// Device to host.
    In,
    /// Host to device.
    Out,
}

/// Interface class code of CDC communications interfaces.
pub const CDC_COMMUNICATIONS: u8 = 0x02;

/// Interface class code of CDC data interfaces.
pub const CDC_DATA: u8 = 0x0A;

/// The interface class is one of the two classes of a CDC ACM function:
/// communications or CDC data.
pub open spec fn is_cdc_class(class: u8) -> bool {
    class == CDC_COMMUNICATIONS || class == CDC_DATA
}

/// An endpoint of an interface.
#[derive(Debug, Clone, Copy, PartialEq, Eq)]
pub struct USBEndpoint {
    /// Vendor and product IDs of the device.
    pub ids: (u16, u16),
    /// Bus and address of the device.
    pub bus: (u8, u8),
    /// Index of the configuration that holds the interface.
    pub index: u8,
    /// Number of the interface that holds the endpoint.
    pub number: u8,
    /// Alternate setting of the interface.
    pub alternate: u8,
    /// Class code of the interface that holds the endpoint.
    pub class: u8,
    /// Endpoint number.
    pub enumber: u8,
    /// Endpoint address.
    pub address: u8,
    /// Transfer type.
    pub transfer: TransferType,
    /// Direction.
    pub direction: Direction,
}

/// An interface (one alternate setting) of a configuration.
pub struct USBInterface {
    /// Index of the configuration that holds the interface.
    pub index: u8,
    /// Interface number.
    pub number: u8,
    /// Alternate setting.
    pub alternate: u8,
    /// Interface class code.
    pub class: u8,
    /// Interface description string.
    pub description: String,
    /// Endpoints of the interface.
    pub endpoints: Vec<USBEndpoint>,
    /// The endpoint list of this interface is shown.
    pub expanded: bool,
}

/// A configuration of a device.
pub struct USBConfig {
    /// Configuration index.
    pub index: u8,
    /// Configuration description string.
    pub description: String,
    /// Interfaces of the configuration.
    pub interfaces: Vec<USBInterface>,
    /// The interface list of this configuration is shown.
    pub expanded: bool,
}

/// A connected USB device.
pub struct USBDevice {
    /// Vendor and product IDs.
    pub ids: (u16, u16),
    /// Bus and address.
    pub bus: (u8, u8),
    /// Product name.
    pub name: String,
    /// Manufacturer string.
    pub manufacturer: String,
    /// Serial number string.
    pub serial: String,
    /// Configurations of the device.
    pub configs: Vec<USBConfig>,
    /// The device section is shown.
    pub expanded: bool,
    /// The configuration list of the device is shown.
    pub showlist: bool,
}

impl USBEndpoint {
    /// The endpoint can carry a `defmt` stream: only bulk input endpoints
    /// of CDC ACM interfaces (communications or CDC data class) can.
    pub open spec fn spec_selectable(self) -> bool {
        &&& self.transfer == TransferType::Bulk
        &&& self.direction == Direction::In
        &&& is_cdc_class(self.class)
    }

    /// The address of this endpoint as a selection target.
    pub open spec fn spec_target(self) -> USBTarget {
        USBTarget {
            ids: self.ids,
            bus: self.bus,
            config: self.index,
            interface: self.number,
            alternate: self.alternate,
            endpoint: self.enumber,
        }
    }

    /// Returns true if the endpoint can carry a `defmt` stream.
    pub fn selectable(&self) -> (b: bool)
        ensures
            b == self.spec_selectable(),
    {
        match (self.transfer, self.direction) {
            (TransferType::Bulk, Direction::In) => self.class == CDC_COMMUNICATIONS || self.class == CDC_DATA,
            _ => false,
        }
    }

    /// Returns the selection target of the endpoint, if it can be selected.
    pub fn target(&self) -> (t: Option<USBTarget>)
        ensures
            t == (if self.spec_selectable() { Some(self.spec_target()) } else { None }),
            t is Some <==> (self.transfer == TransferType::Bulk && self.direction == Direction::In && (self.class
                == 0x02 || self.class == 0x0A)),
            t matches Some(x) ==> {
                &&& x.ids == self.ids
                &&& x.bus == self.bus
                &&& x.config == self.index
                &&& x.interface == self.number
                &&& x.alternate == self.alternate
                &&& x.endpoint == self.enumber
            },
    {
        if self.selectable() {
            Some(USBTarget::new(self.ids, self.bus, self.index, self.number, self.alternate, self.enumber))
        } else {
            None
        }
    }
}

} // verus!

verus! {

/// `i` is the first position of `configs` with the configuration index `idx`.
pub open spec fn first_config(configs: Seq<USBConfig>, idx: u8, i: int) -> bool {
    &&& 0 <= i < configs.len()
    &&& configs[i].index == idx
    &&& forall|j: int| 0 <= j < i ==> #[trigger] configs[j].index != idx
}

/// `i` is the first position of `ifaces` with the interface number `num`
/// and, when one is given, the alternate setting `alt`.
pub open spec fn first_interface(ifaces: Seq<USBInterface>, num: u8, alt: Option<u8>, i: int) -> bool {
    &&& 0 <= i < ifaces.len()
    &&& interface_matches(ifaces[i], num, alt)
    &&& forall|j: int| 0 <= j < i ==> !interface_matches(#[trigger] ifaces[j], num, alt)
}

/// The interface has the number `num` and, when one is given, the alternate
/// setting `alt`.
pub open spec fn interface_matches(iface: USBInterface, num: u8, alt: Option<u8>) -> bool {
    iface.number == num && match alt {
        Some(a) => iface.alternate == a,
        None => true,
    }
}

impl USBDevice {
    /// Returns the position of the first configuration with the given index.
    pub fn find_config(&self, idx: u8) -> (r: Option<usize>)
        ensures
            match r {
                Some(i) => first_config(self.configs@, idx, i as int),
                None => forall|j: int| 0 <= j < self.configs@.len() ==> #[trigger] self.configs@[j].index != idx,
            },
    {
        let mut i: usize = 0;
        while i < self.configs.len()
            invariant
                i <= self.configs@.len(),
                forall|j: int| 0 <= j < i ==> #[trigger] self.configs@[j].index != idx,
            decreases self.configs@.len() - i,
        {
            if self.configs[i].index == idx {
                return Some(i);
            }
            i = i + 1;
        }
        None
    }
}

impl USBConfig {
    /// Returns the position of the first interface with the given number
    /// (and alternate setting, when one is given).
    pub fn find_interface(&self, num: u8, alt: Option<u8>) -> (r: Option<usize>)
        ensures
            match r {
                Some(i) => first_interface(self.interfaces@, num, alt, i as int),
                None => forall|j: int|
                    0 <= j < self.interfaces@.len() ==> !interface_matches(#[trigger] self.interfaces@[j], num, alt),
            },
    {
        let mut i: usize = 0;
        while i < self.interfaces.len()
            invariant
                i <= self.interfaces@.len(),
                forall|j: int| 0 <= j < i ==> !interface_matches(#[trigger] self.interfaces@[j], num, alt),
            decreases self.interfaces@.len() - i,
        {
            let iface = &self.interfaces[i];
            let hit = match alt {
                Some(a) => iface.number == num && iface.alternate == a,
                None => iface.number == num,
            };
            if hit {
                return Some(i);
            }
            i = i + 1;
        }
        None
    }
}

} // verus!

verus! {

/// An endpoint opens a `defmt` stream exactly when it is a bulk input
/// endpoint of an interface of class 0x02 or 0x0A, and the target it opens
/// is its own: the device's IDs and bus, the configuration index, the
/// interface number, the alternate setting and the endpoint number of the
/// endpoint, each in its own field.
pub proof fn law_endpoint_target_is_its_own(e: USBEndpoint)
    ensures
        e.spec_selectable() <==> (e.transfer == TransferType::Bulk && e.direction == Direction::In && (e.class
            == 0x02 || e.class == 0x0A)),
        e.spec_target().ids == e.ids,
        e.spec_target().bus == e.bus,
        e.spec_target().config == e.index,
        e.spec_target().interface == e.number,
        e.spec_target().alternate == e.alternate,
        e.spec_target().endpoint == e.enumber,
{
}

} // verus!
