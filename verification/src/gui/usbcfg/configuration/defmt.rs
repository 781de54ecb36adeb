//! `defmt` configuration.

use vstd::prelude::*;

verus! {

/// Configuration of the `defmt` selector. It has no settings yet.
pub struct DefmtConfig {}

impl DefmtConfig {
    /// Creates a new `defmt` configurator.
    pub fn new() -> (c: Self)
        ensures
            c == (DefmtConfig {}),
    {
        Self {}
    }
}

} // verus!
