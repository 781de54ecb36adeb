//! Module for all GUI view modes.

pub mod database;
pub mod load;
pub mod probe;
pub mod settings;
