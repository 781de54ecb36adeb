use defmthost::gui::selector::actions::show::{CfgShowAction, DevShowAction, IfaceShowAction};
use defmthost::gui::selector::modv1::{showaction, showstate, ShowAction as ListAction, ShowState};
use defmthost::gui::selector::rows::{rows, Row};
use defmthost::gui::selector::{show, show_device};
use defmthost::gui::usbcfg::selector::view::{USBConfigView, USBDeviceView, USBEndpointView, USBInterfaceView};
use defmthost::gui::usbcfg::selector::rows::TreeRow;
use defmthost::gui::usbcfg::selector::{ConnectedDevices, ShowAction, USBSelector};
use defmthost::gui::usbcfg::target::TargetSelection;
use defmthost::gui::usbcfg::{
    defmtaction, defmtselect, probeaction, probeselect, DefmtConfig, Message as CfgMessage, ProbeConfig,
    USBConfiguration, USBSelectorView,
};
use defmthost::gui::Message;
use defmthost::usb::common::USBTarget;
use defmthost::usb::device::{Direction, TransferType, USBConfig, USBDevice, USBEndpoint, USBInterface};
use defmthost::usb::Command;
use std::collections::HashMap;
use std::sync::Arc;

fn endpoint(enumber: u8, transfer: TransferType, direction: Direction) -> USBEndpoint {
    endpoint_of(0x0A, enumber, transfer, direction)
}

fn endpoint_of(class: u8, enumber: u8, transfer: TransferType, direction: Direction) -> USBEndpoint {
    USBEndpoint {
        class,
        ids: (0x1209, 0x0001),
        bus: (1, 4),
        index: 1,
        number: 0,
        alternate: 0,
        enumber,
        address: enumber | 0x80,
        transfer,
        direction,
    }
}

fn interface(number: u8, alternate: u8) -> USBInterface {
    USBInterface {
        index: 1,
        number,
        alternate,
        class: 0x0A,
        description: String::from("defmt"),
        endpoints: vec![
            endpoint(1, TransferType::Bulk, Direction::In),
            endpoint(2, TransferType::Bulk, Direction::Out),
        ],
        expanded: false,
    }
}

fn device(name: &str) -> USBDevice {
    USBDevice {
        ids: (0x1209, 0x0001),
        bus: (1, 4),
        name: name.to_string(),
        manufacturer: String::from("acme"),
        serial: String::from("0001"),
        configs: vec![USBConfig {
            index: 1,
            description: String::from("main"),
            interfaces: vec![interface(0, 0), interface(0, 1), interface(2, 0)],
            expanded: false,
        }],
        expanded: false,
        showlist: false,
    }
}

#[test]
fn endpoint_selection_only_for_bulk_in() {
    let e = endpoint(1, TransferType::Bulk, Direction::In);
    assert!(e.selectable());
    assert_eq!(e.target(), Some(USBTarget::new((0x1209, 0x0001), (1, 4), 1, 0, 0, 1)));
    let o = endpoint(2, TransferType::Bulk, Direction::Out);
    assert!(!o.selectable());
    assert_eq!(o.target(), None);
    assert_eq!(USBEndpointView::create(e, 3).select(), e.target());
    assert_eq!(USBEndpointView::create(endpoint(3, TransferType::Interrupt, Direction::In), 3).select(), None);
}

#[test]
fn endpoint_selection_only_in_cdc_acm_interfaces() {
    assert!(endpoint_of(0x02, 1, TransferType::Bulk, Direction::In).selectable());
    assert!(endpoint_of(0x0A, 1, TransferType::Bulk, Direction::In).selectable());
    let vendor = endpoint_of(0xFF, 1, TransferType::Bulk, Direction::In);
    assert!(!vendor.selectable());
    assert_eq!(vendor.target(), None);
    assert_eq!(USBEndpointView::create(vendor, 3).select(), None);
    assert!(!endpoint_of(0x03, 1, TransferType::Bulk, Direction::In).selectable());
}

#[test]
fn find_config_and_interface_take_the_first_match() {
    let d = device("probe");
    assert_eq!(d.find_config(1), Some(0));
    assert_eq!(d.find_config(2), None);
    let c = &d.configs[0];
    assert_eq!(c.find_interface(0, None), Some(0));
    assert_eq!(c.find_interface(0, Some(1)), Some(1));
    assert_eq!(c.find_interface(2, Some(1)), None);
    assert_eq!(c.find_interface(5, None), None);
}

#[test]
fn show_device_sets_the_named_flag() {
    let mut d = device("probe");
    show_device(&mut d, true, None, None, None);
    assert!(d.expanded);
    show_device(&mut d, true, Some(1), None, None);
    assert!(d.configs[0].expanded);
    show_device(&mut d, true, Some(1), Some(0), Some(1));
    assert!(!d.configs[0].interfaces[0].expanded);
    assert!(d.configs[0].interfaces[1].expanded);
    show_device(&mut d, true, Some(9), Some(0), None);
    assert!(!d.configs[0].interfaces[0].expanded);
    show_device(&mut d, false, None, None, None);
    assert!(!d.expanded);
    assert!(d.configs[0].expanded);
}

#[test]
fn show_actions_on_the_map_of_devices() {
    let mut connected: HashMap<usize, USBDevice> = HashMap::new();
    connected.insert(5, device("a"));
    show(&mut connected, &DevShowAction::new(true, 5));
    assert!(connected[&5].expanded);
    show(&mut connected, &CfgShowAction::new(true, 5, 1));
    assert!(connected[&5].configs[0].expanded);
    show(&mut connected, &IfaceShowAction::new(true, 5, 1, 2));
    assert!(connected[&5].configs[0].interfaces[2].expanded);
    show(&mut connected, &DevShowAction::new(true, 6));
    assert_eq!(connected.len(), 1);
}

#[test]
fn list_actions_and_show_states() {
    let mut connected: HashMap<usize, USBDevice> = HashMap::new();
    connected.insert(1, device("a"));
    showaction(&mut connected, ListAction::ConfigList(true, 1));
    assert!(connected[&1].showlist);
    showaction(&mut connected, ListAction::Device(true, 1));
    assert!(connected[&1].expanded);
    showaction(&mut connected, ListAction::Interface(true, 1, 1, 0, 1));
    assert!(connected[&1].configs[0].interfaces[1].expanded);
    let mut states: HashMap<usize, ShowState> = HashMap::new();
    showstate(&mut states, &3);
    assert!(states[&3].device && !states[&3].configlist);
    states.get_mut(&3).unwrap().configlist = true;
    showstate(&mut states, &3);
    assert!(states[&3].configlist);
    let s = ShowState::new();
    assert!(s.device && !s.configlist);
}

#[test]
fn rows_follow_the_expansion_flags() {
    let mut d = device("a");
    let list = vec![(7, device("b"))];
    assert_eq!(rows(&list), vec![Row::Device(0, ListAction::Device(true, 7))]);
    d.expanded = true;
    let list = vec![(3, d)];
    assert_eq!(
        rows(&list),
        vec![Row::Device(0, ListAction::Device(false, 3)), Row::ConfigList(0, ListAction::ConfigList(true, 3))]
    );
    let mut d = device("c");
    d.expanded = true;
    d.showlist = true;
    d.configs[0].expanded = true;
    d.configs[0].interfaces[1].expanded = true;
    let list = vec![(4, d)];
    assert_eq!(
        rows(&list),
        vec![
            Row::Device(0, ListAction::Device(false, 4)),
            Row::ConfigList(0, ListAction::ConfigList(false, 4)),
            Row::Config(0, 0, ListAction::Config(false, 4, 1)),
            Row::Interface(0, 0, 0, ListAction::Interface(true, 4, 1, 0, 0)),
            Row::Interface(0, 0, 1, ListAction::Interface(false, 4, 1, 0, 1)),
            Row::Endpoint(0, 0, 1, 0, true),
            Row::Endpoint(0, 0, 1, 1, false),
            Row::Interface(0, 0, 2, ListAction::Interface(true, 4, 1, 2, 0)),
        ]
    );
}

#[test]
fn pressing_a_row_button_toggles_its_element() {
    let mut connected: HashMap<usize, USBDevice> = HashMap::new();
    connected.insert(2, device("a"));
    let list = vec![(2, connected[&2].clone_for_test())];
    let r = rows(&list);
    match r[0] {
        Row::Device(_, a) => showaction(&mut connected, a),
        _ => panic!("a device row comes first"),
    }
    assert!(connected[&2].expanded);
    let list = vec![(2, connected[&2].clone_for_test())];
    match rows(&list)[0] {
        Row::Device(_, a) => showaction(&mut connected, a),
        _ => panic!("a device row comes first"),
    }
    assert!(!connected[&2].expanded);
}

trait CloneForTest {
    fn clone_for_test(&self) -> Self;
}

impl CloneForTest for USBDevice {
    fn clone_for_test(&self) -> Self {
        USBDevice {
            ids: self.ids,
            bus: self.bus,
            name: self.name.clone(),
            manufacturer: self.manufacturer.clone(),
            serial: self.serial.clone(),
            configs: self
                .configs
                .iter()
                .map(|c| USBConfig {
                    index: c.index,
                    description: c.description.clone(),
                    interfaces: c
                        .interfaces
                        .iter()
                        .map(|i| USBInterface {
                            index: i.index,
                            number: i.number,
                            alternate: i.alternate,
                            class: i.class,
                            description: i.description.clone(),
                            endpoints: i.endpoints.clone(),
                            expanded: i.expanded,
                        })
                        .collect(),
                    expanded: c.expanded,
                })
                .collect(),
            expanded: self.expanded,
            showlist: self.showlist,
        }
    }
}

fn connected_with(devices: Vec<USBDevice>) -> (ConnectedDevices, Vec<usize>) {
    let mut map = ConnectedDevices::new().expect("a map");
    let mut keys = Vec::new();
    for d in devices {
        keys.push(map.insert(Arc::new(d)).expect("a key"));
    }
    (map, keys)
}

#[test]
fn rebuild_follows_the_connected_devices() {
    let (connected, keys) = connected_with(vec![device("a"), device("b")]);
    let mut sel = USBSelector::new(DefmtConfig::new());
    sel.rebuild(&connected);
    let mut tree_keys: Vec<usize> = sel.tree.iter().map(|v| v.key()).collect();
    tree_keys.sort();
    let mut expect = keys.clone();
    expect.sort();
    assert_eq!(tree_keys, expect);
    for v in &sel.tree {
        assert!(!v.expanded);
        assert_eq!(v.configurations.len(), 1);
        assert_eq!(v.configurations[0].interfaces.len(), 3);
    }
    // Expansion survives a rebuild with the same devices.
    let k = sel.tree[0].key();
    sel.show(&ShowAction::device(true, k));
    sel.rebuild(&connected);
    assert!(sel.tree.iter().find(|v| v.key() == k).unwrap().expanded);
    // Devices that left are dropped.
    let (empty, _) = connected_with(vec![]);
    sel.rebuild(&empty);
    assert!(sel.tree.is_empty());
}

#[test]
fn tree_views_show_and_collapse() {
    let d = Arc::new(device("a"));
    let mut v = USBDeviceView::create(d.clone(), 9);
    assert_eq!(v.key(), 9);
    assert!(!v.expanded);
    assert_eq!(v.collapse(), ShowAction::device(true, 9));
    assert!(v.show(&ShowAction::device(true, 9)));
    assert!(v.expanded);
    assert_eq!(v.collapse(), ShowAction::device(false, 9));
    assert!(!v.show(&ShowAction::device(false, 8)));
    assert!(v.expanded);
    assert!(v.show(&ShowAction::config(true, 9, 1)));
    assert!(v.configurations[0].expanded);
    assert_eq!(v.configurations[0].collapse(), ShowAction::config(false, 9, 1));
    assert!(v.show(&ShowAction::interface(true, 9, 1, 2)));
    assert!(v.configurations[0].interfaces[2].expanded);
    assert_eq!(v.configurations[0].interfaces[2].collapse(), ShowAction::interface(false, 9, 1, 2));
    let mut c = USBConfigView::create(&d.configs[0], 9);
    assert_eq!(c.index, 1);
    assert!(c.show(&ShowAction::config(true, 9, 1)));
    assert!(!c.show(&ShowAction::config(true, 9, 4)));
    let mut i = USBInterfaceView::create(&d.configs[0].interfaces[2], 9);
    assert_eq!(i.number, 2);
    assert_eq!(i.endpoints.len(), 2);
    assert!(i.show(&ShowAction::interface(true, 9, 1, 2)));
    assert!(i.expanded);
    // Showing twice is the same as showing once.
    assert!(i.show(&ShowAction::interface(true, 9, 1, 2)));
    assert!(i.expanded);
}

#[test]
fn configuration_component() {
    let mut c = USBConfiguration::new(Vec::new());
    assert!(c.probe.probes.is_empty());
    assert_eq!(c.selected, USBSelectorView::Defmt);
    assert!(!c.defmt_tab_enabled());
    assert!(c.probe_tab_enabled());
    c.update(CfgMessage::Selected(USBSelectorView::Probe));
    assert_eq!(c.selected, USBSelectorView::Probe);
    assert!(c.defmt_tab_enabled());
    assert!(!c.probe_tab_enabled());
    let (connected, keys) = connected_with(vec![device("a")]);
    c.rebuild(
        &connected,
        vec![defmthost::gui::usbcfg::probe::ProbeInfo {
            identifier: String::from("p"),
            vendor_id: 1,
            product_id: 2,
            serial_number: Some(String::from("s")),
        }],
    );
    assert_eq!(c.defmt.tree.len(), 1);
    assert_eq!(c.probe.probes.len(), 1);
    c.update(CfgMessage::Defmt(ShowAction::device(true, keys[0])));
    assert!(c.defmt.tree[0].expanded);
    c.update(CfgMessage::Probe(ShowAction::device(false, keys[0])));
    assert!(c.defmt.tree[0].expanded);
    assert_eq!(ProbeConfig::new().speed, 1000);
}

#[test]
fn action_and_select_messages() {
    let a = ShowAction::device(true, 1);
    assert!(matches!(defmtaction(a), Message::USBConfiguration(CfgMessage::Defmt(x)) if x == a));
    assert!(matches!(probeaction(a), Message::USBConfiguration(CfgMessage::Probe(x)) if x == a));
    let t = USBTarget::new((1, 2), (3, 4), 1, 0, 0, 1);
    assert!(matches!(defmtselect(t), Message::USB(Command::DefmtOpen(x)) if x == t));
    assert!(matches!(probeselect(t), Message::Empty));
}

#[test]
fn target_selection() {
    let mut t = TargetSelection::new();
    assert!(!TargetSelection::search_needed(&String::from("a")));
    assert!(TargetSelection::search_needed(&String::from("ab")));
    assert!(TargetSelection::search_needed(&String::from("abc")));
    t.textinput(String::from("a"), Some(vec![1]));
    assert_eq!(t.matches, None);
    t.textinput(String::from("ab"), Some(vec![2]));
    assert_eq!(t.matches, Some(vec![2]));
    t.textinput(String::from("stm"), Some(vec![1, 7]));
    assert_eq!(t.matches, Some(vec![1, 7]));
    let targets = vec![String::from("nrf52"), String::from("stm32f4"), String::from("rp2040")];
    assert_eq!(t.possible(&targets), vec!["stm32f4"]);
    t.textinput(String::from("x"), None);
    assert_eq!(t.possible(&targets), targets);
    assert!(t.select_message(false).is_none());
    assert!(matches!(t.select_message(true), Some(Message::SelectTarget(s)) if s == "x"));
    t.mark(String::from("rp2040"));
    assert_eq!(t.input, "rp2040");
    assert_eq!(t.selected, Some(String::from("rp2040")));
    t.unmark();
    assert_eq!(t.selected, None);
    assert_eq!(t.input, "rp2040");
}

#[test]
fn tree_rows_follow_the_views() {
    let (connected, keys) = connected_with(vec![device("a")]);
    let k = keys[0];
    let mut sel = USBSelector::new(DefmtConfig::new());
    sel.rebuild(&connected);
    assert_eq!(sel.rows(), vec![TreeRow::Device(0, ShowAction::device(true, k))]);
    sel.show(&ShowAction::device(true, k));
    sel.show(&ShowAction::config(true, k, 1));
    sel.show(&ShowAction::interface(true, k, 1, 2));
    let target = USBTarget::new((0x1209, 0x0001), (1, 4), 1, 0, 0, 1);
    assert_eq!(
        sel.rows(),
        vec![
            TreeRow::Device(0, ShowAction::device(false, k)),
            TreeRow::Config(0, 0, ShowAction::config(false, k, 1)),
            TreeRow::Interface(0, 0, 0, ShowAction::interface(true, k, 1, 0)),
            TreeRow::Interface(0, 0, 1, ShowAction::interface(true, k, 1, 0)),
            TreeRow::Interface(0, 0, 2, ShowAction::interface(false, k, 1, 2)),
            TreeRow::Endpoint(0, 0, 2, 0, Some(target)),
            TreeRow::Endpoint(0, 0, 2, 1, None),
        ]
    );
}

#[test]
fn target_buttons_put_their_name_in_the_input() {
    let mut t = TargetSelection::new();
    let targets = vec![String::from("nrf52"), String::from("stm32f4"), String::from("rp2040")];
    t.textinput(String::from("stm"), Some(vec![1]));
    let b = t.possible_buttons(&targets);
    assert_eq!(b.len(), 1);
    assert_eq!(b[0].0, "stm32f4");
    assert!(matches!(&b[0].1, Message::USBConfiguration(CfgMessage::TargetTextChange(n)) if n == "stm32f4"));
    t.textinput(String::from("x"), None);
    let b = t.possible_buttons(&targets);
    let names: Vec<&str> = b.iter().map(|(n, _)| n.as_str()).collect();
    assert_eq!(names, vec!["nrf52", "stm32f4", "rp2040"]);
    for (n, m) in &b {
        assert!(matches!(m, Message::USBConfiguration(CfgMessage::TargetTextChange(s)) if s == n));
    }
}

#[test]
fn connected_devices_get_fresh_keys() {
    let (_, keys) = connected_with(vec![device("a"), device("b"), device("c")]);
    assert_eq!(keys.len(), 3);
    assert!(keys[0] != keys[1] && keys[1] != keys[2] && keys[0] != keys[2]);
}
