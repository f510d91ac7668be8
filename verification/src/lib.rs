//! Lumen Frame: borders, shadows and EXIF captions for photos, together with the
//! byte-level container work behind Ultra HDR gain maps and Google Motion Photos.

use vstd::prelude::*;

pub mod chars;
pub mod config;
pub mod decimal;
pub mod features;
pub mod gainmap;
pub mod media;
pub mod persistence;
pub mod photo;
pub mod process;
pub mod render;
pub mod rotation;
pub mod sorting;
pub mod time;
pub mod update;

verus! {

/// Where the photo, or a text group, sits on the canvas.
#[derive(Debug, Clone, Copy, PartialEq, Eq)]
pub enum Position {
    Center,
    Up,
    Right,
    Bottom,
    Left,
}

} // verus!

pub mod ui;
