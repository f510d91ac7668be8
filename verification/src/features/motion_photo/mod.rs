//! Google Motion Photo export. Video work is FFmpeg's; this module decides what may be
//! asked of it, what its answers allow, and assembles the JPEG/XMP container.
//!
//! An export runs: [`check_export_options`], probe the video, [`check_clip_end`], render
//! the cover frame, [`video_budget`], encode the clip, [`cover_timestamp`], then
//! [`container::insert_motion_photo_xmp`] and [`check_output_size`] before writing.

pub mod container;
pub mod export;

use vstd::prelude::*;

use crate::rotation::Rotation;
use crate::time::TimeSpan;

verus! {

/// The longest clip a Motion Photo may hold, in seconds.
pub const MAX_DURATION_SECS: u64 = 10;

/// The default limit on the whole Motion Photo file, cover and video together.
pub const DEFAULT_MAX_OUTPUT_SIZE: u64 = 32 * 1024 * 1024;

/// What probing a video found.
#[derive(Debug, Clone, Copy)]
pub struct MotionPhotoVideoInfo {
    pub duration: TimeSpan,
    pub width: u16,
    pub height: u16,
}

/// What one Motion Photo export is asked to do. `P` is how the caller names files.
#[derive(Debug, Clone)]
pub struct MotionPhotoOptions<P> {
    pub ffmpeg_path: P,
    pub video_path: P,
    pub output_path: P,
    pub start: TimeSpan,
    pub end: TimeSpan,
    pub cover_time: TimeSpan,
    pub jpeg_quality: u8,
    pub rotation: Rotation,
    /// The largest size, in bytes, of the final Motion Photo: cover and video together.
    pub max_output_size: u64,
}

/// Why a clip or an export was refused.
#[derive(Debug, Clone, Copy, PartialEq, Eq)]
pub enum MotionPhotoError {
    /// The end of the clip is not after its start.
    EndNotAfterStart,
    /// The clip is longer than ten seconds.
    ClipTooLong,
    /// The cover frame lies outside the clip.
    CoverOutsideClip,
    /// The JPEG quality is outside 1 to 100.
    InvalidQuality,
    /// The size limit is zero.
    ZeroSizeLimit,
    /// The clip ends after the video does.
    EndPastVideo,
    /// The cover alone already reaches the size limit.
    CoverTooLarge,
    /// The cover timestamp does not fit the metadata field.
    TimestampOverflow,
    /// The finished Motion Photo exceeds the size limit.
    OutputTooLarge,
}

/// The clip `[start, end)` with its cover frame at `cover`, or why it is refused.
pub open spec fn spec_validate_range(start: nat, end: nat, cover: nat) -> Result<(), MotionPhotoError> {
    if !(start < end) {
        Err(MotionPhotoError::EndNotAfterStart)
    } else if end - start > MAX_DURATION_SECS * 1_000_000_000 {
        Err(MotionPhotoError::ClipTooLong)
    } else if !(start <= cover < end) {
        Err(MotionPhotoError::CoverOutsideClip)
    } else {
        Ok(())
    }
}

/// Checks a clip: it ends after it starts, lasts at most ten seconds, and its cover
/// frame lies inside it.
pub fn validate_range(start: TimeSpan, end: TimeSpan, cover: TimeSpan) -> (r: Result<(), MotionPhotoError>)
    ensures
        r == spec_validate_range(start@, end@, cover@),
{
    if !start.lt(&end) {
        return Err(MotionPhotoError::EndNotAfterStart);
    }
    let span = end.checked_sub(&start).unwrap();
    if !span.le(&TimeSpan::from_secs(MAX_DURATION_SECS)) {
        return Err(MotionPhotoError::ClipTooLong);
    }
    if !(start.le(&cover) && cover.lt(&end)) {
        return Err(MotionPhotoError::CoverOutsideClip);
    }
    Ok(())
}

/// The checks an export makes before any video work, in order.
pub open spec fn spec_check_export_options<P>(options: MotionPhotoOptions<P>) -> Result<(), MotionPhotoError> {
    match spec_validate_range(options.start@, options.end@, options.cover_time@) {
        Err(e) => Err(e),
        Ok(()) => if !(1 <= options.jpeg_quality <= 100) {
            Err(MotionPhotoError::InvalidQuality)
        } else if options.max_output_size == 0 {
            Err(MotionPhotoError::ZeroSizeLimit)
        } else {
            Ok(())
        },
    }
}

/// Checks an export's options before any video work: the clip, the JPEG quality, and
/// the size limit.
pub fn check_export_options<P>(options: &MotionPhotoOptions<P>) -> (r: Result<(), MotionPhotoError>)
    ensures
        r == spec_check_export_options(*options),
{
    validate_range(options.start, options.end, options.cover_time)?;
    if !(1 <= options.jpeg_quality && options.jpeg_quality <= 100) {
        return Err(MotionPhotoError::InvalidQuality);
    }
    if options.max_output_size == 0 {
        return Err(MotionPhotoError::ZeroSizeLimit);
    }
    Ok(())
}

/// Checks that the clip ends within the probed video.
pub fn check_clip_end(end: TimeSpan, info: &MotionPhotoVideoInfo) -> (r: Result<(), MotionPhotoError>)
    ensures
        end@ <= info.duration@ ==> r is Ok,
        end@ > info.duration@ ==> r == Err::<(), MotionPhotoError>(MotionPhotoError::EndPastVideo),
{
    if end.le(&info.duration) {
        Ok(())
    } else {
        Err(MotionPhotoError::EndPastVideo)
    }
}

/// The bytes left for the video once the cover, of `cover_len` bytes, is in.
pub fn video_budget(cover_len: usize, max_output_size: u64) -> (r: Result<u64, MotionPhotoError>)
    ensures
        cover_len < max_output_size ==> r == Ok::<u64, MotionPhotoError>(
            (max_output_size - cover_len) as u64,
        ),
        cover_len >= max_output_size ==> r == Err::<u64, MotionPhotoError>(
            MotionPhotoError::CoverTooLarge,
        ),
{
    if (cover_len as u64) < max_output_size {
        Ok(max_output_size - cover_len as u64)
    } else {
        Err(MotionPhotoError::CoverTooLarge)
    }
}

/// Where the cover frame sits in the clip, in microseconds: zero when the cover comes
/// before the start, and refused when the number exceeds 64 bits.
pub fn cover_timestamp(start: TimeSpan, cover: TimeSpan) -> (r: Result<u64, MotionPhotoError>)
    ensures
        ({
            let micros = if start@ <= cover@ { (cover@ - start@) / 1000 } else { 0 };
            &&& micros <= u64::MAX ==> r == Ok::<u64, MotionPhotoError>(micros as u64)
            &&& micros > u64::MAX ==> r == Err::<u64, MotionPhotoError>(
                MotionPhotoError::TimestampOverflow,
            )
        }),
{
    let offset = match cover.checked_sub(&start) {
        Some(d) => d,
        None => TimeSpan::zero(),
    };
    let micros = offset.as_micros();
    if micros <= u64::MAX as u128 {
        Ok(micros as u64)
    } else {
        Err(MotionPhotoError::TimestampOverflow)
    }
}

/// Checks the finished Motion Photo, `jpeg_len` bytes of JPEG and `video_len` bytes of
/// video, against the size limit.
pub fn check_output_size(jpeg_len: usize, video_len: usize, max_output_size: u64) -> (r: Result<
    (),
    MotionPhotoError,
>)
    ensures
        jpeg_len + video_len <= max_output_size ==> r is Ok,
        jpeg_len + video_len > max_output_size ==> r == Err::<(), MotionPhotoError>(
            MotionPhotoError::OutputTooLarge,
        ),
{
    if jpeg_len as u128 + video_len as u128 <= max_output_size as u128 {
        Ok(())
    } else {
        Err(MotionPhotoError::OutputTooLarge)
    }
}

} // verus!
