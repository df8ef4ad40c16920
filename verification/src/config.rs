//! The persisted editor settings.
//!
//! The settings value itself and its defaults live here; reading and
//! writing the configuration file, and the on-disk format, belong to the
//! application around the library.

use vstd::prelude::*;

use crate::i18n::Language;

verus! {

/// Default size, in points, of the editor's monospace font.
pub const DEFAULT_EDITOR_FONT_SIZE: u32 = 16;

/// The color theme of the user interface.
#[derive(Clone, Copy, Debug, PartialEq, Eq, Structural)]
pub enum Theme {
    Light,
    Dark,
}

/// The editor settings kept across sessions.
#[derive(Debug, Clone)]
pub struct Config {
    /// The color theme.
    pub theme: Theme,
    /// The display language.
    pub language: Language,
    /// Paths of the files open in the editor.
    pub open_files: Vec<String>,
    /// Path of the project currently open, if any.
    pub current_project: Option<String>,
    /// Size, in points, of the editor's monospace font.
    pub editor_font_size: u32,
}

impl Default for Config {
    /// The settings of a fresh installation: dark theme, English, no open
    /// files, no project, and the default editor font size.
    fn default() -> (c: Config)
        ensures
            c.theme == Theme::Dark,
            c.language == Language::English,
            c.open_files@.len() == 0,
            c.current_project is None,
            c.editor_font_size == DEFAULT_EDITOR_FONT_SIZE,
    {
        Config {
            theme: Theme::Dark,
            language: Language::English,
            open_files: Vec::new(),
            current_project: None,
            editor_font_size: DEFAULT_EDITOR_FONT_SIZE,
        }
    }
}

} // verus!
