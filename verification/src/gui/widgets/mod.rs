//! Widgets shared by the views.

pub mod topbar;
