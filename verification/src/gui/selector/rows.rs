//! The rows that the device list shows: each device, and below an expanded
//! one its information and configuration bar, then its configurations,
//! interfaces and endpoints as far as they are expanded.

use vstd::prelude::*;

use crate::usb::device::{USBConfig, USBDevice, USBEndpoint, USBInterface};

use super::modv1::ShowAction;

verus! {

/// A row of the device list, with the positions of its element and the
/// action that its expand/collapse button sends.
#[derive(Clone, Copy, Debug, Eq, PartialEq, Structural)]
pub enum Row {
    /// The title of the device at this position in the list.
    Device(usize, ShowAction),
    /// The information and the configuration bar of the device.
    ConfigList(usize, ShowAction),
    /// A configuration: device and configuration positions.
    Config(usize, usize, ShowAction),
    /// An interface: device, configuration and interface positions.
    Interface(usize, usize, usize, ShowAction),
    /// An endpoint: device, configuration, interface and endpoint positions,
    /// and whether it can be selected.
    Endpoint(usize, usize, usize, usize, bool),
}

/// The rows of the first `n` endpoints of an interface.
pub open spec fn endpoint_rows(d: usize, c: usize, i: usize, eps: Seq<USBEndpoint>, n: int) -> Seq<Row>
    decreases n,
{
    if n <= 0 {
        Seq::empty()
    } else {
        endpoint_rows(d, c, i, eps, n - 1).push(
            Row::Endpoint(d, c, i, (n - 1) as usize, eps[n - 1].spec_selectable()),
        )
    }
}

/// The rows of one interface: its title, then its endpoints if expanded.
pub open spec fn interface_rows(d: usize, key: usize, cidx: u8, c: usize, i: usize, f: USBInterface) -> Seq<Row> {
    seq![Row::Interface(d, c, i, ShowAction::Interface(!f.expanded, key, cidx, f.number, f.alternate))]
        + if f.expanded {
        endpoint_rows(d, c, i, f.endpoints@, f.endpoints@.len() as int)
    } else {
        Seq::empty()
    }
}

/// The rows of the first `n` interfaces of a configuration.
pub open spec fn interfaces_rows(d: usize, key: usize, cidx: u8, c: usize, fs: Seq<USBInterface>, n: int) -> Seq<Row>
    decreases n,
{
    if n <= 0 {
        Seq::empty()
    } else {
        interfaces_rows(d, key, cidx, c, fs, n - 1) + interface_rows(d, key, cidx, c, (n - 1) as usize, fs[n - 1])
    }
}

/// The rows of one configuration: its title, then its interfaces if
/// expanded.
pub open spec fn config_rows(d: usize, key: usize, c: usize, g: USBConfig) -> Seq<Row> {
    seq![Row::Config(d, c, ShowAction::Config(!g.expanded, key, g.index))] + if g.expanded {
        interfaces_rows(d, key, g.index, c, g.interfaces@, g.interfaces@.len() as int)
    } else {
        Seq::empty()
    }
}

/// The rows of the first `n` configurations of a device.
pub open spec fn configs_rows(d: usize, key: usize, gs: Seq<USBConfig>, n: int) -> Seq<Row>
    decreases n,
{
    if n <= 0 {
        Seq::empty()
    } else {
        configs_rows(d, key, gs, n - 1) + config_rows(d, key, (n - 1) as usize, gs[n - 1])
    }
}

/// The rows of one device: its title; if expanded, its information and
/// configuration bar; if its configuration list is shown, its
/// configurations.
pub open spec fn device_rows(d: usize, key: usize, dev: USBDevice) -> Seq<Row> {
    seq![Row::Device(d, ShowAction::Device(!dev.expanded, key))] + if !dev.expanded {
        Seq::empty()
    } else {
        seq![Row::ConfigList(d, ShowAction::ConfigList(!dev.showlist, key))] + if !dev.showlist {
            Seq::empty()
        } else {
            configs_rows(d, key, dev.configs@, dev.configs@.len() as int)
        }
    }
}

/// The rows of the first `n` devices of a list of (key, device).
pub open spec fn tree_rows(devs: Seq<(usize, USBDevice)>, n: int) -> Seq<Row>
    decreases n,
{
    if n <= 0 {
        Seq::empty()
    } else {
        tree_rows(devs, n - 1) + device_rows((n - 1) as usize, devs[n - 1].0, devs[n - 1].1)
    }
}

/// Appends the rows of the endpoints of an interface.
fn push_endpoints(r: &mut Vec<Row>, d: usize, c: usize, i: usize, f: &USBInterface)
    ensures
        final(r)@ == old(r)@ + endpoint_rows(d, c, i, f.endpoints@, f.endpoints@.len() as int),
{
    let ghost base = r@;
    let mut e: usize = 0;
    assert(base + endpoint_rows(d, c, i, f.endpoints@, 0) =~= base);
    while e < f.endpoints.len()
        invariant
            e <= f.endpoints@.len(),
            r@ == base + endpoint_rows(d, c, i, f.endpoints@, e as int),
        decreases f.endpoints@.len() - e,
    {
        let row = Row::Endpoint(d, c, i, e, f.endpoints[e].selectable());
        r.push(row);
        assert(r@ =~= base + endpoint_rows(d, c, i, f.endpoints@, e + 1));
        e = e + 1;
    }
}

/// Appends the rows of the interfaces of a configuration.
fn push_interfaces(r: &mut Vec<Row>, d: usize, key: usize, c: usize, g: &USBConfig)
    ensures
        final(r)@ == old(r)@ + interfaces_rows(d, key, g.index, c, g.interfaces@, g.interfaces@.len() as int),
{
    let ghost base = r@;
    let mut i: usize = 0;
    assert(base + interfaces_rows(d, key, g.index, c, g.interfaces@, 0) =~= base);
    while i < g.interfaces.len()
        invariant
            i <= g.interfaces@.len(),
            r@ == base + interfaces_rows(d, key, g.index, c, g.interfaces@, i as int),
        decreases g.interfaces@.len() - i,
    {
        let f = &g.interfaces[i];
        let ghost before = r@;
        r.push(Row::Interface(d, c, i, ShowAction::Interface(!f.expanded, key, g.index, f.number, f.alternate)));
        if f.expanded {
            push_endpoints(r, d, c, i, f);
        }
        assert(r@ =~= before + interface_rows(d, key, g.index, c, i, *f));
        assert(r@ =~= base + interfaces_rows(d, key, g.index, c, g.interfaces@, i + 1));
        i = i + 1;
    }
}

/// Appends the rows of the configurations of a device.
fn push_configs(r: &mut Vec<Row>, d: usize, key: usize, dev: &USBDevice)
    ensures
        final(r)@ == old(r)@ + configs_rows(d, key, dev.configs@, dev.configs@.len() as int),
{
    let ghost base = r@;
    let mut c: usize = 0;
    assert(base + configs_rows(d, key, dev.configs@, 0) =~= base);
    while c < dev.configs.len()
        invariant
            c <= dev.configs@.len(),
            r@ == base + configs_rows(d, key, dev.configs@, c as int),
        decreases dev.configs@.len() - c,
    {
        let g = &dev.configs[c];
        let ghost before = r@;
        r.push(Row::Config(d, c, ShowAction::Config(!g.expanded, key, g.index)));
        if g.expanded {
            push_interfaces(r, d, key, c, g);
        }
        assert(r@ =~= before + config_rows(d, key, c, *g));
        assert(r@ =~= base + configs_rows(d, key, dev.configs@, c + 1));
        c = c + 1;
    }
}

/// Returns the rows that the device list shows for the given devices, each
/// with its key, in the order given.
pub fn rows(devices: &Vec<(usize, USBDevice)>) -> (r: Vec<Row>)
    ensures
        r@ == tree_rows(devices@, devices@.len() as int),
{
    let mut r: Vec<Row> = Vec::new();
    let mut d: usize = 0;
    assert(r@ =~= tree_rows(devices@, 0));
    while d < devices.len()
        invariant
            d <= devices@.len(),
            r@ == tree_rows(devices@, d as int),
        decreases devices@.len() - d,
    {
        let key = devices[d].0;
        let dev = &devices[d].1;
        let ghost before = r@;
        r.push(Row::Device(d, ShowAction::Device(!dev.expanded, key)));
        if dev.expanded {
            r.push(Row::ConfigList(d, ShowAction::ConfigList(!dev.showlist, key)));
            if dev.showlist {
                push_configs(&mut r, d, key, dev);
            }
        }
        assert(r@ =~= before + device_rows(d, key, *dev));
        assert(r@ =~= tree_rows(devices@, d + 1));
        d = d + 1;
    }
    r
}

} // verus!

verus! {

/// No endpoint row is a device row.
proof fn lemma_endpoint_rows_not_device(d: usize, c: usize, i: usize, eps: Seq<USBEndpoint>, n: int)
    ensures
        forall|t: int| 0 <= t < endpoint_rows(d, c, i, eps, n).len() ==> !(#[trigger] endpoint_rows(d, c, i, eps, n)[t] is Device),
    decreases n,
{
    if n > 0 {
        lemma_endpoint_rows_not_device(d, c, i, eps, n - 1);
        let p = endpoint_rows(d, c, i, eps, n - 1);
        assert forall|t: int| 0 <= t < endpoint_rows(d, c, i, eps, n).len() implies !(#[trigger] endpoint_rows(d, c, i, eps, n)[t] is Device) by {
            if t < p.len() {
                assert(endpoint_rows(d, c, i, eps, n)[t] == p[t]);
            }
        }
    }
}

/// No row of the interfaces of a configuration is a device row.
proof fn lemma_interfaces_rows_not_device(d: usize, key: usize, cidx: u8, c: usize, fs: Seq<USBInterface>, n: int)
    ensures
        forall|t: int| 0 <= t < interfaces_rows(d, key, cidx, c, fs, n).len() ==> !(#[trigger] interfaces_rows(d, key, cidx, c, fs, n)[t] is Device),
    decreases n,
{
    if n > 0 {
        lemma_interfaces_rows_not_device(d, key, cidx, c, fs, n - 1);
        let p = interfaces_rows(d, key, cidx, c, fs, n - 1);
        let f = fs[n - 1];
        let q = interface_rows(d, key, cidx, c, (n - 1) as usize, f);
        lemma_endpoint_rows_not_device(d, c, (n - 1) as usize, f.endpoints@, f.endpoints@.len() as int);
        let e = endpoint_rows(d, c, (n - 1) as usize, f.endpoints@, f.endpoints@.len() as int);
        assert forall|t: int| 0 <= t < interfaces_rows(d, key, cidx, c, fs, n).len() implies !(#[trigger] interfaces_rows(d, key, cidx, c, fs, n)[t] is Device) by {
            if t < p.len() {
                assert(interfaces_rows(d, key, cidx, c, fs, n)[t] == p[t]);
            } else {
                assert(interfaces_rows(d, key, cidx, c, fs, n)[t] == q[t - p.len()]);
                if t - p.len() > 0 {
                    assert(q[t - p.len()] == e[t - p.len() - 1]);
                }
            }
        }
    }
}

/// No row of the configurations of a device is a device row.
proof fn lemma_configs_rows_not_device(d: usize, key: usize, gs: Seq<USBConfig>, n: int)
    ensures
        forall|t: int| 0 <= t < configs_rows(d, key, gs, n).len() ==> !(#[trigger] configs_rows(d, key, gs, n)[t] is Device),
    decreases n,
{
    if n > 0 {
        lemma_configs_rows_not_device(d, key, gs, n - 1);
        let p = configs_rows(d, key, gs, n - 1);
        let g = gs[n - 1];
        let q = config_rows(d, key, (n - 1) as usize, g);
        lemma_interfaces_rows_not_device(d, key, g.index, (n - 1) as usize, g.interfaces@, g.interfaces@.len() as int);
        let e = interfaces_rows(d, key, g.index, (n - 1) as usize, g.interfaces@, g.interfaces@.len() as int);
        assert forall|t: int| 0 <= t < configs_rows(d, key, gs, n).len() implies !(#[trigger] configs_rows(d, key, gs, n)[t] is Device) by {
            if t < p.len() {
                assert(configs_rows(d, key, gs, n)[t] == p[t]);
            } else {
                assert(configs_rows(d, key, gs, n)[t] == q[t - p.len()]);
                if t - p.len() > 0 {
                    assert(q[t - p.len()] == e[t - p.len() - 1]);
                }
            }
        }
    }
}

/// A device row of the list stands for a device of the list, and its
/// button sends the action that flips that device's flag.
proof fn lemma_device_rows(devs: Seq<(usize, USBDevice)>, n: int, t: int)
    requires
        0 <= n <= devs.len(),
        devs.len() <= usize::MAX,
        0 <= t < tree_rows(devs, n).len(),
        tree_rows(devs, n)[t] is Device,
    ensures
        tree_rows(devs, n)[t] matches Row::Device(d, a) && d < n && a == ShowAction::Device(
            !devs[d as int].1.expanded,
            devs[d as int].0,
        ),
    decreases n,
{
    if n > 0 {
        let p = tree_rows(devs, n - 1);
        let dev = devs[n - 1].1;
        let key = devs[n - 1].0;
        let q = device_rows((n - 1) as usize, key, dev);
        if t < p.len() {
            assert(tree_rows(devs, n)[t] == p[t]);
            lemma_device_rows(devs, n - 1, t);
        } else {
            let u = t - p.len();
            assert(tree_rows(devs, n)[t] == q[u]);
            if u > 0 {
                let d = (n - 1) as usize;
                let rest = seq![Row::ConfigList(d, ShowAction::ConfigList(!dev.showlist, key))] + if !dev.showlist {
                    Seq::empty()
                } else {
                    configs_rows(d, key, dev.configs@, dev.configs@.len() as int)
                };
                assert(dev.expanded);
                assert(q[u] == rest[u - 1]);
                if u > 1 {
                    lemma_configs_rows_not_device(d, key, dev.configs@, dev.configs@.len() as int);
                    assert(rest[u - 1] == configs_rows(d, key, dev.configs@, dev.configs@.len() as int)[u - 2]);
                }
            }
        }
    }
}

/// Pressing the button of a device row of the list flips the expansion of
/// that device in the map of connected devices that the list was read from.
pub proof fn law_device_row_toggles(
    devs: Seq<(usize, USBDevice)>,
    t: int,
    pre: Map<usize, USBDevice>,
    post: Map<usize, USBDevice>,
)
    requires
        devs.len() <= usize::MAX,
        0 <= t < tree_rows(devs, devs.len() as int).len(),
        tree_rows(devs, devs.len() as int)[t] is Device,
        forall|i: int| 0 <= i < devs.len() ==> pre.contains_key(#[trigger] devs[i].0) && pre[devs[i].0] == devs[i].1,
        tree_rows(devs, devs.len() as int)[t] matches Row::Device(_, a) && super::modv1::showaction_done(pre, a, post),
    ensures
        tree_rows(devs, devs.len() as int)[t] matches Row::Device(d, _) && post[devs[d as int].0].expanded
            == !pre[devs[d as int].0].expanded,
{
    lemma_device_rows(devs, devs.len() as int, t);
    if let Row::Device(d, a) = tree_rows(devs, devs.len() as int)[t] {
        assert(pre.contains_key(devs[d as int].0));
    }
}

} // verus!
