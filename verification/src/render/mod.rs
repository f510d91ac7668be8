//! Layout of the watermarked canvas.

pub mod canvas;
pub mod image;
