use defmthost::gui::usbcfg::probe::{ProbeInfo, ProbeSelector};
use defmthost::gui::views::load::state::ChipLoadingState;
use defmthost::gui::views::load::LoadingView;
use defmthost::gui::views::settings::theme::ThemeSettings;
use defmthost::gui::views::settings::{SettingsMessage, SettingsSubview, SettingsView};
use defmthost::gui::widgets::topbar::Topbar;
use defmthost::gui::window::debug::DebugWindowComponent;
use defmthost::gui::Message;

#[test]
fn settings_go_to_a_subview_and_back() {
    let mut v = SettingsView::new();
    assert_eq!(v.view, None);
    assert!(!v.back_enabled());
    v.update(SettingsMessage::ThemeSettingsButton);
    assert_eq!(v.view, Some(SettingsSubview::ThemeSettings));
    assert!(v.back_enabled());
    v.update(SettingsMessage::AppSettingsButton);
    assert_eq!(v.view, Some(SettingsSubview::AppSettings));
    v.update(SettingsMessage::BackButton);
    assert_eq!(v.view, None);
    let mut t = ThemeSettings::new();
    t.update(());
}

#[test]
fn chip_loading_state_setters() {
    let mut s = ChipLoadingState::new();
    assert_eq!((s.chips, s.mnfs, s.fmls, s.search), ((0, 0), 0, 0, 0));
    s.maxchip(10);
    s.loadedchip(3);
    s.mnfs(4);
    s.fmls(5);
    s.search(6);
    assert_eq!((s.chips, s.mnfs, s.fmls, s.search), ((3, 10), 4, 5, 6));
}

#[test]
fn loading_screen_takes_the_reports() {
    let mut v = LoadingView::new();
    assert!(!v.finished());
    assert!(!v.screen(Some((5, 100)), None, Some(7), None));
    assert_eq!(v.chips.chips, (5, 100));
    assert_eq!(v.chips.search, 7);
    assert_eq!(v.chips.mnfs, 0);
    assert!(!v.screen(None, Some(2), None, Some(false)));
    assert!(!v.finished());
    assert_eq!(v.chips.chips, (5, 100));
    assert_eq!(v.chips.mnfs, 2);
    assert!(v.screen(None, None, None, Some(true)));
    assert!(v.finished());
    assert!(!v.screen(None, None, None, None));
    assert!(v.finished());
}

#[test]
fn topbar_buttons_press_when_enabled() {
    let mut t = Topbar::new();
    assert!(t.buttons.is_empty());
    t.add(Message::DeselectTarget, String::from("Reset"));
    t.add(Message::Empty, String::from("None"));
    assert_eq!(t.buttons.len(), 2);
    assert_eq!(t.buttons[1].1, "None");
    assert!(matches!(t.press(0, true), Some(Message::DeselectTarget)));
    assert!(matches!(t.press(1, true), Some(Message::Empty)));
    assert!(t.press(0, false).is_none());
}

#[test]
fn probe_selector_lists_the_probes() {
    let probe = |id: &str| ProbeInfo {
        identifier: id.to_string(),
        vendor_id: 0x0d28,
        product_id: 0x0204,
        serial_number: None,
    };
    let mut s = ProbeSelector::new(vec![probe("a")]);
    assert_eq!(s.probes.len(), 1);
    assert!(s.selected.is_none());
    s.rebuild(vec![probe("b"), probe("c")]);
    assert_eq!(s.probes.len(), 2);
    assert_eq!(s.probes[1].identifier, "c");
    assert!(matches!(s.open_message(1), Message::USB(defmthost::usb::Command::ProbeOpen(1))));
    assert_ne!(DebugWindowComponent::Cores, DebugWindowComponent::Code);
}

#[test]
fn settings_buttons_send_their_messages() {
    let mut v = SettingsView::new();
    assert!(v.back_message().is_none());
    let c = v.choice_messages();
    assert_eq!(c.len(), 2);
    assert!(matches!(c[0], Message::Settings(SettingsMessage::ThemeSettingsButton)));
    assert!(matches!(c[1], Message::Settings(SettingsMessage::AppSettingsButton)));
    v.update(SettingsMessage::ThemeSettingsButton);
    assert!(matches!(v.back_message(), Some(Message::Settings(SettingsMessage::BackButton))));
    assert!(v.choice_messages().is_empty());
}
