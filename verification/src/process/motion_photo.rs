//! Motion Photo export options for clips that are not rotated.

use vstd::prelude::*;

use crate::time::TimeSpan;

pub use crate::features::motion_photo::container::insert_motion_photo_xmp;
pub use crate::features::motion_photo::{validate_range, DEFAULT_MAX_OUTPUT_SIZE};

verus! {

/// What probing a video found.
#[derive(Debug, Clone, Copy)]
pub struct MotionPhotoVideoInfo {
    pub duration: TimeSpan,
    pub width: u16,
    pub height: u16,
}

/// What one Motion Photo export is asked to do. `P` is how the caller names files.
#[derive(Debug, Clone)]
pub struct MotionPhotoOptions<P> {
    pub ffmpeg_path: P,
    pub video_path: P,
    pub output_path: P,
    pub start: TimeSpan,
    pub end: TimeSpan,
    pub cover_time: TimeSpan,
    pub jpeg_quality: u8,
    /// The largest size, in bytes, of the final Motion Photo: cover and video together.
    pub max_output_size: u64,
}

} // verus!
