use defmthost::gui::views::probe::address::{decimal_digit, validaddr};
use defmthost::gui::views::probe::common::Datatype;
use defmthost::gui::views::probe::{
    address_message, command_messages, datatype_choices, datatypes, pick_message, read_messages, submit_message,
    AddressField, ProbeMessage, ProbeView,
};
use defmthost::gui::Message;
use regex::Regex;

fn patterns() -> Vec<Regex> {
    vec![
        Regex::new(r"^0[xX][0-9A-Fa-f]{0,8}$").unwrap(),
        Regex::new(r"^0[bB][0-1]{0,32}$").unwrap(),
        Regex::new(r"^0[oO][0-7]{0,14}$").unwrap(),
        Regex::new(r"^[\d]{1,12}$").unwrap(),
    ]
}

fn by_patterns(res: &[Regex], s: &str) -> bool {
    s.is_empty() || res.iter().any(|r| r.is_match(s))
}

#[test]
fn valid_addresses() {
    for s in ["", "0x", "0X1f", "0xdeadBEEF", "0b", "0B1010", "0o17", "0O", "7", "123456789012", "٣٤", "１２", "0"] {
        assert!(validaddr(&s.to_string()), "{:?} should be valid", s);
    }
}

#[test]
fn invalid_addresses() {
    for s in ["x", "0x123456789", "0xg", "0o8", "0b2", "1234567890123", " 12", "12\n", "12a", "-1", "0x 1", "٣x"] {
        assert!(!validaddr(&s.to_string()), "{:?} should be invalid", s);
    }
    let ones = format!("0b{}", "1".repeat(32));
    assert!(validaddr(&ones));
    let too_many = format!("0b{}", "1".repeat(33));
    assert!(!validaddr(&too_many));
    assert!(validaddr(&format!("0o{}", "7".repeat(14))));
    assert!(!validaddr(&format!("0o{}", "7".repeat(15))));
}

#[test]
fn validation_agrees_with_the_address_patterns() {
    let res = patterns();
    let alphabet = ['0', '1', '7', '8', '9', 'a', 'f', 'g', 'x', 'X', 'b', 'B', 'o', 'O', '٣', '１', ' ', '\n', '-'];
    // Every text of up to three characters over the alphabet.
    let mut texts: Vec<String> = vec![String::new()];
    let mut last: Vec<String> = vec![String::new()];
    for _ in 0..3 {
        let mut next = Vec::new();
        for t in &last {
            for c in alphabet {
                let mut u = t.clone();
                u.push(c);
                next.push(u);
            }
        }
        texts.extend(next.iter().cloned());
        last = next;
    }
    // Some longer texts near the length limits.
    for n in [7usize, 8, 9, 10, 11, 12, 13, 14, 15, 31, 32, 33] {
        for (p, d) in [("0x", "f"), ("0b", "1"), ("0o", "7"), ("", "9"), ("", "٣")] {
            texts.push(format!("{}{}", p, d.repeat(n)));
        }
    }
    for t in &texts {
        assert_eq!(validaddr(t), by_patterns(&res, t), "disagreement on {:?}", t);
    }
}

#[test]
fn decimal_digits_agree_with_the_digit_class() {
    let d = Regex::new(r"^\d$").unwrap();
    for u in 0u32..=0x1FFFF {
        if let Some(c) = char::from_u32(u) {
            assert_eq!(decimal_digit(c), d.is_match(&c.to_string()), "disagreement on U+{:04X}", u);
        }
    }
}

#[test]
fn address_inputs_take_only_valid_addresses() {
    let mut v = ProbeView::new(vec![String::from("probe-1")]);
    assert_eq!(v.probenames, vec!["probe-1"]);
    assert!(v.readaddrval.is_empty() && v.saddrval.is_empty() && v.eaddrval.is_empty());
    v.update(ProbeMessage::ReadAddressChanged(String::from("0x20")));
    assert_eq!(v.readaddrval, "0x20");
    v.update(ProbeMessage::ReadAddressChanged(String::from("0x2g")));
    assert_eq!(v.readaddrval, "0x20");
    v.update(ProbeMessage::ReadRangeSAddressChanged(String::from("100")));
    v.update(ProbeMessage::ReadRangeEAddressChanged(String::from("0b11")));
    assert_eq!(v.saddrval, "100");
    assert_eq!(v.eaddrval, "0b11");
    v.update(ProbeMessage::ReadRangeEAddressChanged(String::new()));
    assert_eq!(v.eaddrval, "");
    v.update(ProbeMessage::Datatype(Datatype::UInt16));
    assert_eq!(v.seldatatype, Some(Datatype::UInt16));
    v.update(ProbeMessage::Load);
    assert_eq!(v.readaddrval, "0x20");
    assert_eq!(v.seldatatype, Some(Datatype::UInt16));
}

#[test]
fn datatypes_in_order_with_their_names() {
    let d = datatypes();
    let names: Vec<String> = d.iter().map(|t| t.to_string()).collect();
    assert_eq!(names, vec!["i8", "u8", "i16", "u16", "i32", "u32", "i64", "u64", "f16", "f32", "bf16", "char"]);
}

#[test]
fn picking_a_datatype_sends_it_to_the_probe_view() {
    let c = datatype_choices();
    assert_eq!(c.len(), datatypes().len());
    for ((d, m), e) in c.iter().zip(datatypes()) {
        assert_eq!(*d, e);
        assert!(matches!(m, Message::Probe(ProbeMessage::Datatype(x)) if *x == e));
    }
    let mut v = ProbeView::new(vec![]);
    if let Message::Probe(m) = c[3].1.clone() {
        v.update(m);
    }
    assert_eq!(v.seldatatype, Some(Datatype::UInt16));
}

#[test]
fn probe_buttons_send_their_commands() {
    let m = command_messages();
    assert_eq!(m.len(), 6);
    assert!(matches!(m[0], Message::Probe(ProbeMessage::Load)));
    assert!(matches!(m[1], Message::Probe(ProbeMessage::Stop)));
    assert!(matches!(m[2], Message::Probe(ProbeMessage::Reset)));
    assert!(matches!(m[3], Message::Probe(ProbeMessage::Run)));
    assert!(matches!(m[4], Message::Probe(ProbeMessage::Step)));
    assert!(matches!(m[5], Message::Probe(ProbeMessage::Dump)));
    let r = read_messages();
    assert_eq!(r.len(), 3);
    assert!(matches!(r[0], Message::Probe(ProbeMessage::Read)));
    assert!(matches!(r[1], Message::Probe(ProbeMessage::ReadRange)));
    assert!(matches!(r[2], Message::Probe(ProbeMessage::ReadSymbol)));
}

#[test]
fn address_inputs_send_their_changes_and_submissions() {
    let m = address_message(AddressField::Read, String::from("0x1"));
    assert!(matches!(m, Message::Probe(ProbeMessage::ReadAddressChanged(ref s)) if s == "0x1"));
    let m = address_message(AddressField::RangeStart, String::from("2"));
    assert!(matches!(m, Message::Probe(ProbeMessage::ReadRangeSAddressChanged(ref s)) if s == "2"));
    let m = address_message(AddressField::RangeEnd, String::from("3"));
    assert!(matches!(m, Message::Probe(ProbeMessage::ReadRangeEAddressChanged(ref s)) if s == "3"));
    assert!(matches!(submit_message(AddressField::Read), Message::Probe(ProbeMessage::NewReadAddress)));
    assert!(matches!(submit_message(AddressField::RangeStart), Message::Probe(ProbeMessage::NewReadRangeSAddress)));
    assert!(matches!(submit_message(AddressField::RangeEnd), Message::Probe(ProbeMessage::NewReadRangeEAddress)));
    assert!(matches!(pick_message(String::from("fw")), Message::ProjectSelected(ref s) if s == "fw"));
}
