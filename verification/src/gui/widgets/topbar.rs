//! A bar of buttons, each with a label and the message it sends.

use vstd::prelude::*;

use crate::gui::Message;

verus! {

/// A bar of buttons.
pub struct Topbar {
    /// The buttons, in order: the message each sends and its label.
    pub buttons: Vec<(Message, String)>,
}

impl Topbar {
    /// Creates an empty `Topbar`.
    pub fn new() -> (t: Self)
        ensures
            t.buttons@.len() == 0,
    {
        Topbar { buttons: Vec::new() }
    }

    /// Adds a button at the end of the bar.
    pub fn add(&mut self, msg: Message, text: String)
        ensures
            final(self).buttons@ == old(self).buttons@.push((msg, text)),
    {
        self.buttons.push((msg, text));
    }

    /// The message that pressing the button at position `i` sends: its own
    /// when the bar is enabled, none otherwise.
    pub fn press(&self, i: usize, enabled: bool) -> (m: Option<&Message>)
        requires
            i < self.buttons@.len(),
        ensures
            m == if enabled {
                Some(&self.buttons@[i as int].0)
            } else {
                None
            },
    {
        if enabled {
            Some(&self.buttons[i].0)
        } else {
            None
        }
    }
}

} // verus!
