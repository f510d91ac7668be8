//! Where the photo goes on the canvas.

pub use crate::render::image::cal_coordinates;
