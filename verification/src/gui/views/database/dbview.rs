//! The database view: the bar of databases and the database shown.

use vstd::prelude::*;

use crate::gui::widgets::topbar::Topbar;
use crate::gui::Message;

use super::project::{self, model, next_model, DbData, ProjectDatabaseView, ProjectEffect};
use super::DatabaseViewMessage;

verus! {

/// The database view.
pub struct DatabaseView {
    /// Bar to select the database.
    pub topbar: Topbar,
    /// The database shown, if any.
    pub current: Option<super::View>,
    /// The project database view.
    pub project: ProjectDatabaseView,
}

impl DatabaseView {
    /// Builds the database view: a bar with the chip, regex, theme and
    /// project databases, none shown yet.
    pub fn new() -> (v: Self)
        ensures
            v.topbar.buttons@.len() == 4,
            v.topbar.buttons@[0].0 == Message::Database(DatabaseViewMessage::ChangeToChip),
            v.topbar.buttons@[0].1@ == "Chip"@,
            v.topbar.buttons@[1].0 == Message::Database(DatabaseViewMessage::ChangeToRegex),
            v.topbar.buttons@[1].1@ == "Regex"@,
            v.topbar.buttons@[2].0 == Message::Database(DatabaseViewMessage::ChangeToTheme),
            v.topbar.buttons@[2].1@ == "Theme"@,
            v.topbar.buttons@[3].0 == Message::Database(DatabaseViewMessage::ChangeToProject),
            v.topbar.buttons@[3].1@ == "Project"@,
            v.current == None::<super::View>,
            model(v.project) == ProjectDatabaseView::new_spec(),
    {
        let mut topbar = Topbar::new();
        topbar.add(Message::Database(DatabaseViewMessage::ChangeToChip), String::from_str("Chip"));
        topbar.add(Message::Database(DatabaseViewMessage::ChangeToRegex), String::from_str("Regex"));
        topbar.add(Message::Database(DatabaseViewMessage::ChangeToTheme), String::from_str("Theme"));
        topbar.add(Message::Database(DatabaseViewMessage::ChangeToProject), String::from_str("Project"));
        DatabaseView { topbar, current: None, project: ProjectDatabaseView::new() }
    }

    /// Updates the view: a change of database shows it; the creation of the
    /// interfaces gives the project view its interface; a project message
    /// goes to the project view, with the data the caller read for it.
    pub fn update(&mut self, msg: DatabaseViewMessage, data: DbData) -> (e: ProjectEffect)
        requires
            msg matches DatabaseViewMessage::Project(m) ==> project::data_fits(m, data)
                && project::accepts(model(old(self).project), m),
        ensures
            final(self).topbar == old(self).topbar,
            match msg {
                DatabaseViewMessage::ChangeToChip => final(self).current == Some(super::View::Chip)
                    && final(self).project == old(self).project && e is Nothing,
                DatabaseViewMessage::ChangeToRegex => final(self).current == Some(super::View::Regex)
                    && final(self).project == old(self).project && e is Nothing,
                DatabaseViewMessage::ChangeToTheme => final(self).current == Some(super::View::Theme)
                    && final(self).project == old(self).project && e is Nothing,
                DatabaseViewMessage::ChangeToProject => final(self).current == Some(super::View::Project)
                    && final(self).project == old(self).project && e is Nothing,
                DatabaseViewMessage::InterfacesCreated => {
                    &&& final(self).current == old(self).current
                    &&& final(self).project.connected
                    &&& model(final(self).project) == (
                        model(old(self).project).0,
                        model(old(self).project).1,
                        model(old(self).project).2,
                        model(old(self).project).3,
                        model(old(self).project).4,
                        model(old(self).project).5,
                        true,
                    )
                    &&& e is FetchDatabase
                },
                DatabaseViewMessage::Project(m) => {
                    &&& final(self).current == old(self).current
                    &&& model(final(self).project) == next_model(model(old(self).project), m, data)
                    &&& project::effect_fits(model(old(self).project), m, e)
                },
            },
    {
        match msg {
            DatabaseViewMessage::ChangeToChip => {
                self.current = Some(super::View::Chip);
                ProjectEffect::Nothing
            },
            DatabaseViewMessage::ChangeToRegex => {
                self.current = Some(super::View::Regex);
                ProjectEffect::Nothing
            },
            DatabaseViewMessage::ChangeToTheme => {
                self.current = Some(super::View::Theme);
                ProjectEffect::Nothing
            },
            DatabaseViewMessage::ChangeToProject => {
                self.current = Some(super::View::Project);
                ProjectEffect::Nothing
            },
            DatabaseViewMessage::InterfacesCreated => self.project.interface(),
            DatabaseViewMessage::Project(m) => self.project.update(m, data),
        }
    }
}

} // verus!
