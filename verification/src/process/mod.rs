//! Captions, photo placement and Motion Photo export of the watermark pipeline.

pub mod font;
pub mod image;
pub mod motion_photo;
pub mod text;
