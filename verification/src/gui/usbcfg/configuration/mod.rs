//! Configurations of the USB selectors.

mod defmt;
mod probe;

pub use defmt::DefmtConfig;
pub use probe::ProbeConfig;
