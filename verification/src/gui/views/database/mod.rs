//! Database view: a bar to choose the database, and the view of the project
//! database.

mod dbview;
pub mod project;

use vstd::prelude::*;

pub use self::dbview::DatabaseView;

use self::project::ProjectViewMessage;

verus! {

/// The databases that the view shows.
#[derive(Clone, Copy, Debug, Eq, PartialEq, Structural)]
pub enum View {
    /// The chip database.
    Chip,
    /// The regex database.
    Regex,
    /// The theme database.
    Theme,
    /// The project database.
    Project,
}

/// A message of the database view.
#[derive(Clone, Debug)]
pub enum DatabaseViewMessage {
    /// Show the chip database.
    ChangeToChip,
    /// Show the regex database.
    ChangeToRegex,
    /// Show the theme database.
    ChangeToTheme,
    /// Show the project database.
    ChangeToProject,
    /// The interfaces to the databases were created.
    InterfacesCreated,
    /// A message for the project database view.
    Project(ProjectViewMessage),
}

} // verus!
