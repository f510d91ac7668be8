//! Pixel buffers for preview bitmaps.

pub use crate::ui::image::rgb_to_bgra;
