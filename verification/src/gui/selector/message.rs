//! All messages of an USB Selector.

use vstd::prelude::*;



use super::actions::show::ShowAction;

verus! {

/// A message of the USB selector.
pub enum Message {
    /// Expand or collapse an element of the device list.
    Show(Box<dyn ShowAction>),
}

} // verus!
