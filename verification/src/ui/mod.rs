//! The decisions behind the interface: preview bitmaps, form fields and settings.

pub mod component;
pub mod export;
pub mod image;
pub mod page;
pub mod preview;
pub mod preview_image;
pub mod settings;
pub mod update;
