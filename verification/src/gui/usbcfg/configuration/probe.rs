//! `probe-rs` configuration.

use vstd::prelude::*;

verus! {

/// Configuration of the `probe-rs` selector.
pub struct ProbeConfig {
    /// Speed of the probe in kHz.
    pub speed: u32,
}

impl ProbeConfig {
    /// Creates a new probe configuration, at 1000 kHz.
    pub fn new() -> (c: Self)
        ensures
            c.speed == 1000,
    {
        Self { speed: 1000 }
    }
}

} // verus!
