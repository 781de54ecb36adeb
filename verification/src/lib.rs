//! Host-side model of the `defmt` logging and probe GUI: the USB device
//! selection tree, the project database editor, the binary search engine and
//! the small state machines behind each view, with their contracts.

pub mod gui;
pub mod project;
mod seqs;
pub mod text;
pub mod usb;
