//! User preferences that persist between sessions.

use vstd::prelude::*;

verus! {

/// Which theme the application shows.
#[derive(Clone, Copy, Debug, PartialEq, Eq, Structural)]
pub enum ColorScheme {
    /// Always the light theme.
    Light,
    /// Always the dark theme.
    Dark,
    /// Whatever the system prefers.
    System,
}

impl ColorScheme {
    /// Whether the dark theme is shown under this scheme, given what the
    /// system prefers: a fixed scheme decides alone, `System` follows the
    /// system.
    pub open spec fn shows_dark(self, system_prefers_dark: bool) -> bool {
        match self {
            ColorScheme::Light => false,
            ColorScheme::Dark => true,
            ColorScheme::System => system_prefers_dark,
        }
    }

    /// Whether to show the dark theme.
    pub fn prefers_dark(&self, system_prefers_dark: bool) -> (dark: bool)
        ensures
            dark == self.shows_dark(system_prefers_dark),
    {
        match self {
            ColorScheme::Light => false,
            ColorScheme::Dark => true,
            ColorScheme::System => system_prefers_dark,
        }
    }
}

/// The settings a user can change: theme, font and the folder last selected.
#[derive(Clone, Debug)]
pub struct UserConfig {
    preferred_color_scheme: ColorScheme,
    preferred_font: String,
    selected_folder: String,
}

/// Mathematical model of [`UserConfig`].
pub struct UserConfigView {
    pub preferred_color_scheme: ColorScheme,
    pub preferred_font: Seq<char>,
    pub selected_folder: Seq<char>,
}

/// The settings of a new user: dark theme, the standard font, all inboxes.
pub open spec fn default_settings() -> UserConfigView {
    UserConfigView {
        preferred_color_scheme: ColorScheme::Dark,
        preferred_font: "Sans 11"@,
        selected_folder: "📥 All Inboxes"@,
    }
}

impl View for UserConfig {
    type V = UserConfigView;

    closed spec fn view(&self) -> UserConfigView {
        UserConfigView {
            preferred_color_scheme: self.preferred_color_scheme,
            preferred_font: self.preferred_font@,
            selected_folder: self.selected_folder@,
        }
    }
}

impl Default for UserConfig {
    fn default() -> (config: UserConfig)
        ensures
            config@ == default_settings(),
    {
        UserConfig {
            preferred_color_scheme: ColorScheme::Dark,
            preferred_font: String::from_str("Sans 11"),
            selected_folder: String::from_str("📥 All Inboxes"),
        }
    }
}

impl UserConfig {
    /// Settings with the given values.
    pub fn new(
        preferred_color_scheme: ColorScheme,
        preferred_font: String,
        selected_folder: String,
    ) -> (config: UserConfig)
        ensures
            config@ == (UserConfigView {
                preferred_color_scheme,
                preferred_font: preferred_font@,
                selected_folder: selected_folder@,
            }),
    {
        UserConfig { preferred_color_scheme, preferred_font, selected_folder }
    }

    /// The settings to run with after an attempt to load stored ones: what
    /// was loaded, or the defaults where nothing usable was found.
    pub fn loaded_or_default(loaded: Option<UserConfig>) -> (config: UserConfig)
        ensures
            config@ == (match loaded {
                Some(stored) => stored@,
                None => default_settings(),
            }),
    {
        match loaded {
            Some(stored) => stored,
            None => UserConfig::default(),
        }
    }

    /// The preferred theme.
    pub fn get_preferred_color_scheme(&self) -> (scheme: &ColorScheme)
        ensures
            *scheme == self@.preferred_color_scheme,
    {
        &self.preferred_color_scheme
    }

    /// The preferred font, as a family and a size.
    pub fn get_preferred_font(&self) -> (font: &str)
        ensures
            font@ == self@.preferred_font,
    {
        self.preferred_font.as_str()
    }

    /// Selects another folder; theme and font stay.
    pub fn update_selected_folder(&mut self, folder: &str)
        ensures
            final(self)@ == (UserConfigView { selected_folder: folder@, ..old(self)@ }),
    {
        self.selected_folder = String::from_str(folder);
    }

    /// The folder last selected.
    pub fn get_selected_folder(&self) -> (folder: &str)
        ensures
            folder@ == self@.selected_folder,
    {
        self.selected_folder.as_str()
    }

    /// Changes the theme; font and folder stay.
    pub fn update_color_scheme(&mut self, scheme: ColorScheme)
        ensures
            final(self)@ == (UserConfigView { preferred_color_scheme: scheme, ..old(self)@ }),
    {
        self.preferred_color_scheme = scheme;
    }
}

} // verus!
