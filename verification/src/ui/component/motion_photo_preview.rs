//! The request behind a Motion Photo cover preview.

use vstd::prelude::*;

use crate::rotation::Rotation;
use crate::time::TimeSpan;

verus! {

/// What a cover preview is rendered from. `P` is how the caller names files.
#[derive(Debug, Clone)]
pub struct MotionPhotoPreviewRequest<P> {
    /// The FFmpeg to use; without one the preview fails.
    pub ffmpeg_path: Option<P>,
    pub path: P,
    pub start: TimeSpan,
    pub end: TimeSpan,
    pub cover_time: TimeSpan,
    pub rotation: Rotation,
}

} // verus!
