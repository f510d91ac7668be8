//! Theme choices of the settings page.

pub use crate::ui::page::settings::{default_theme_index, ThemeMode};
