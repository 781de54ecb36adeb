//! Logic of the graphical interface, view by view.

pub mod selector;
pub mod usbcfg;
pub mod views;
pub mod widgets;
pub mod window;

use vstd::prelude::*;

verus! {

/// A message of the application, as far as the components of this library
/// produce them.
#[derive(Clone, Debug)]
pub enum Message {
    /// A message for the USB configuration component.
    USBConfiguration(usbcfg::Message),
    /// A command for the USB service.
    USB(crate::usb::Command),
    /// Selects the given target.
    SelectTarget(String),
    /// Deselects the current target.
    DeselectTarget,
    /// A message for the database view.
    Database(views::database::DatabaseViewMessage),
    /// The project database changed: read it again.
    UpdateProjectDatabase,
    /// A message for the probe view.
    Probe(views::probe::ProbeMessage),
    /// A name was picked in a selection list of the probe view.
    ProjectSelected(String),
    /// A message for the settings view.
    Settings(views::settings::SettingsMessage),
    /// An event for the binary window with the given ID.
    BinaryWindow(usize, window::binary::event::Event),
    /// No message (the variant that carries nothing).
    Empty,
}

} // verus!
