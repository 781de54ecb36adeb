//! Actions of the USB selector.

pub mod show;
