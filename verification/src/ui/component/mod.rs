//! Form parts of the interface.

pub mod field;
pub mod motion_photo_preview;
pub mod queue;
pub mod text_section;
