//! Settings view: a choice of the settings to change, and a way back.

pub mod theme;

use vstd::prelude::*;

verus! {

/// The settings shown.
#[derive(Debug, Clone, Copy, PartialEq, Eq, Structural)]
pub enum SettingsSubview {
    /// The theme settings.
    ThemeSettings,
    /// The application settings.
    AppSettings,
}

/// A message of the settings view.
#[derive(Debug, Clone, Copy, PartialEq, Eq, Structural)]
pub enum SettingsMessage {
    /// Go back one level.
    BackButton,
    /// Open the theme settings.
    ThemeSettingsButton,
    /// Open the application settings.
    AppSettingsButton,
}

/// The settings view.
pub struct SettingsView {
    /// The settings shown, if any.
    pub view: Option<SettingsSubview>,
}

impl SettingsView {
    /// Creates the settings view, showing the choice of settings.
    pub fn new() -> (v: Self)
        ensures
            v.view == None::<SettingsSubview>,
    {
        SettingsView { view: None }
    }

    /// Updates the view: back to the choice, or to the settings chosen.
    pub fn update(&mut self, msg: SettingsMessage)
        ensures
            final(self).view == match msg {
                SettingsMessage::BackButton => None,
                SettingsMessage::ThemeSettingsButton => Some(SettingsSubview::ThemeSettings),
                SettingsMessage::AppSettingsButton => Some(SettingsSubview::AppSettings),
            },
    {
        match msg {
            SettingsMessage::BackButton => {
                self.view = None;
            },
            SettingsMessage::ThemeSettingsButton => {
                self.view = Some(SettingsSubview::ThemeSettings);
            },
            SettingsMessage::AppSettingsButton => {
                self.view = Some(SettingsSubview::AppSettings);
            },
        }
    }

    /// The back button works only when some settings are shown.
    pub fn back_enabled(&self) -> (b: bool)
        ensures
            b == self.view is Some,
    {
        self.view.is_some()
    }

    /// The message of the back button: back to the choice of settings, sent
    /// only when some settings are shown.
    pub fn back_message(&self) -> (m: Option<crate::gui::Message>)
        ensures
            m == if self.view is Some {
                Some(crate::gui::Message::Settings(SettingsMessage::BackButton))
            } else {
                None::<crate::gui::Message>
            },
    {
        if self.view.is_some() {
            Some(crate::gui::Message::Settings(SettingsMessage::BackButton))
        } else {
            None
        }
    }

    /// The messages of the buttons of the content, in order: the theme and
    /// application settings buttons while no settings are shown, none
    /// otherwise.
    pub fn choice_messages(&self) -> (m: Vec<crate::gui::Message>)
        ensures
            m@ == if self.view is None {
                seq![
                    crate::gui::Message::Settings(SettingsMessage::ThemeSettingsButton),
                    crate::gui::Message::Settings(SettingsMessage::AppSettingsButton),
                ]
            } else {
                Seq::<crate::gui::Message>::empty()
            },
    {
        if self.view.is_none() {
            vec![
                crate::gui::Message::Settings(SettingsMessage::ThemeSettingsButton),
                crate::gui::Message::Settings(SettingsMessage::AppSettingsButton),
            ]
        } else {
            Vec::new()
        }
    }
}

} // verus!
