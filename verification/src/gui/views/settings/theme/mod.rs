//! Theme settings view.

use vstd::prelude::*;

verus! {

/// The theme settings, which hold nothing yet.
pub struct ThemeSettings {}

impl ThemeSettings {
    /// Creates a new `ThemeSettings`.
    pub fn new() -> (t: Self)
        ensures
            t == (ThemeSettings {}),
    {
        ThemeSettings {}
    }

    /// Updates the `ThemeSettings` with the given message: nothing changes.
    pub fn update(&mut self, msg: ())
        ensures
            *final(self) == *old(self),
    {
    }
}

} // verus!
