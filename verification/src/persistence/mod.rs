//! What the application keeps on disk: named watermark presets and local preferences.

pub mod presets;
pub mod settings;
