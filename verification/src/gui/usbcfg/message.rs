//! Messages and events of the USB configuration component.

use vstd::prelude::*;

use super::selector::ShowAction;
use super::USBSelectorView;

verus! {

/// A message of the USB configuration component.
#[derive(Clone, Debug)]
pub enum Message {
    /// A message for the `defmt` selector.
    Defmt(ShowAction),
    /// A message for the `probe-rs` selector.
    Probe(ShowAction),
    /// Changes the selected view.
    Selected(USBSelectorView),
    /// The text input of the target selection changed.
    TargetTextChange(String),
}

impl From<Message> for crate::gui::Message {
    fn from(m: Message) -> (g: crate::gui::Message) {
        crate::gui::Message::USBConfiguration(m)
    }
}

impl vstd::std_specs::convert::FromSpecImpl<Message> for crate::gui::Message {
    open spec fn obeys_from_spec() -> bool {
        true
    }

    open spec fn from_spec(v: Message) -> crate::gui::Message {
        crate::gui::Message::USBConfiguration(v)
    }
}

} // verus!
