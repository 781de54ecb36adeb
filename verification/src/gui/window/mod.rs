//! Windows of the application.

pub mod binary;
pub mod debug;

use vstd::prelude::*;

pub use self::binary::BinaryWindow;

verus! {

/// A window of the application.
pub enum Window {
    /// A binary inspection window.
    Binary(BinaryWindow),
}

} // verus!
