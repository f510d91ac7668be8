//! The order of a Motion Photo export, one step at a time.
//!
//! The caller runs FFprobe and FFmpeg and writes the file; after each of those it
//! reports what happened as a [`MotionExportEvent`], and [`motion_export_step`] says what
//! to do next. No video tool runs for options that are refused, the clip is encoded only
//! once the cover is a JPEG that leaves room in the size limit, and the file is written
//! only once the finished Motion Photo is known to fit.

use vstd::prelude::*;

use crate::features::motion_photo::container::{
    insert_motion_photo_xmp, is_jpeg_cover, spec_insert_motion_photo_xmp, ContainerError,
};
use crate::features::motion_photo::{
    check_clip_end, check_export_options, check_output_size, cover_timestamp,
    spec_check_export_options, video_budget, MotionPhotoError, MotionPhotoOptions,
    MotionPhotoVideoInfo,
};

verus! {

/// The outside work of an export.
#[derive(Debug, Clone, Copy, PartialEq, Eq)]
pub enum ExportStep {
    /// FFprobe reads the video.
    Probe,
    /// FFmpeg renders the cover frame.
    Cover,
    /// FFmpeg encodes the clip.
    Encode,
    /// The Motion Photo file is written.
    Write,
}

/// Why an export stopped.
#[derive(Debug, Clone, Copy, PartialEq, Eq)]
pub enum MotionExportError {
    /// A check on the clip, the options or the sizes refused it.
    Refused(MotionPhotoError),
    /// The cover could not carry the Motion Photo metadata.
    Container(ContainerError),
    /// FFmpeg gave something other than a JPEG for the cover frame.
    NoJpegCover,
    /// An outside step failed.
    Failed(ExportStep),
}

/// Where an export stands: the outside step it waits on.
#[derive(Debug)]
pub enum MotionExportState {
    Idle,
    Probing,
    RenderingCover,
    /// Waiting for the clip; holds the cover and the bytes left for the clip.
    Encoding { cover: Vec<u8>, budget: u64 },
    Writing,
    Finished,
}

/// What the caller does next.
#[derive(Debug)]
pub enum MotionExportAction {
    /// Read the video's duration and size with FFprobe.
    Probe,
    /// Render the cover frame as a JPEG with FFmpeg.
    RenderCover,
    /// Encode the clip with FFmpeg in at most `budget` bytes.
    EncodeClip { budget: u64 },
    /// Write `jpeg` and then the clip as the Motion Photo.
    Write { jpeg: Vec<u8> },
    /// The export is over.
    Finish(Result<(), MotionExportError>),
}

/// How the last outside step went.
#[derive(Debug)]
pub enum MotionExportEvent {
    Start,
    Probed(MotionPhotoVideoInfo),
    CoverRendered(Vec<u8>),
    /// The clip is encoded; its length in bytes.
    ClipEncoded(usize),
    Written,
    /// The outside step failed.
    Failed,
}

/// The event is one that the state waits for.
pub open spec fn export_expects(state: MotionExportState, event: MotionExportEvent) -> bool {
    match (state, event) {
        (MotionExportState::Idle, MotionExportEvent::Start) => true,
        (MotionExportState::Probing, MotionExportEvent::Probed(_)) => true,
        (MotionExportState::RenderingCover, MotionExportEvent::CoverRendered(_)) => true,
        (MotionExportState::Encoding { .. }, MotionExportEvent::ClipEncoded(_)) => true,
        (MotionExportState::Writing, MotionExportEvent::Written) => true,
        (MotionExportState::Probing, MotionExportEvent::Failed) => true,
        (MotionExportState::RenderingCover, MotionExportEvent::Failed) => true,
        (MotionExportState::Encoding { .. }, MotionExportEvent::Failed) => true,
        (MotionExportState::Writing, MotionExportEvent::Failed) => true,
        _ => false,
    }
}

/// The outside step a state waits on.
pub open spec fn step_of(state: MotionExportState) -> ExportStep {
    match state {
        MotionExportState::Probing => ExportStep::Probe,
        MotionExportState::RenderingCover => ExportStep::Cover,
        MotionExportState::Encoding { .. } => ExportStep::Encode,
        _ => ExportStep::Write,
    }
}

pub open spec fn finished(error: MotionExportError) -> (MotionExportState, MotionExportAction) {
    (MotionExportState::Finished, MotionExportAction::Finish(Err(error)))
}

/// Where the cover sits in the clip, in microseconds.
pub open spec fn cover_micros<P>(options: MotionPhotoOptions<P>) -> int {
    if options.start@ <= options.cover_time@ {
        (options.cover_time@ - options.start@) / 1000
    } else {
        0
    }
}

/// The step an export takes from `state` when `event` comes: `next` and `action` are
/// what it gives.
pub open spec fn export_step_is<P>(
    state: MotionExportState,
    options: MotionPhotoOptions<P>,
    event: MotionExportEvent,
    next: MotionExportState,
    action: MotionExportAction,
) -> bool {
    let max = options.max_output_size;
    match (state, event) {
        (MotionExportState::Idle, MotionExportEvent::Start) => match spec_check_export_options(
            options,
        ) {
            Err(e) => (next, action) == finished(MotionExportError::Refused(e)),
            Ok(_) => next is Probing && action is Probe,
        },
        (MotionExportState::Probing, MotionExportEvent::Probed(info)) => if options.end@
            <= info.duration@ {
            next is RenderingCover && action is RenderCover
        } else {
            (next, action) == finished(MotionExportError::Refused(MotionPhotoError::EndPastVideo))
        },
        (MotionExportState::RenderingCover, MotionExportEvent::CoverRendered(c)) => if !(c@.len()
            >= 2 && c@[0] == 0xff && c@[1] == 0xd8) {
            (next, action) == finished(MotionExportError::NoJpegCover)
        } else if c@.len() >= max {
            (next, action) == finished(MotionExportError::Refused(MotionPhotoError::CoverTooLarge))
        } else {
            &&& next == (MotionExportState::Encoding { cover: c, budget: (max - c@.len()) as u64 })
            &&& action == (MotionExportAction::EncodeClip { budget: (max - c@.len()) as u64 })
        },
        (MotionExportState::Encoding { cover, budget }, MotionExportEvent::ClipEncoded(n)) => if
        cover_micros(options) > u64::MAX {
            (next, action) == finished(
                MotionExportError::Refused(MotionPhotoError::TimestampOverflow),
            )
        } else {
            match spec_insert_motion_photo_xmp(cover@, n as nat, cover_micros(options) as nat) {
                Err(e) => (next, action) == finished(MotionExportError::Container(e)),
                Ok(jpeg) => if jpeg.len() + n > max {
                    (next, action) == finished(
                        MotionExportError::Refused(MotionPhotoError::OutputTooLarge),
                    )
                } else {
                    &&& next is Writing
                    &&& (action matches MotionExportAction::Write { jpeg: j } && j@ == jpeg)
                },
            }
        },
        (MotionExportState::Writing, MotionExportEvent::Written) => next is Finished
            && action == MotionExportAction::Finish(Ok(())),
        (s, MotionExportEvent::Failed) => (next, action) == finished(
            MotionExportError::Failed(step_of(s)),
        ),
        _ => false,
    }
}

/// Decides the next step of an export, given how the last one went.
pub fn motion_export_step<P>(
    state: MotionExportState,
    options: &MotionPhotoOptions<P>,
    event: MotionExportEvent,
) -> (r: (MotionExportState, MotionExportAction))
    requires
        export_expects(state, event),
    ensures
        export_step_is(state, *options, event, r.0, r.1),
{
    match (state, event) {
        (MotionExportState::Idle, MotionExportEvent::Start) => match check_export_options(options) {
            Err(e) => (
                MotionExportState::Finished,
                MotionExportAction::Finish(Err(MotionExportError::Refused(e))),
            ),
            Ok(()) => (MotionExportState::Probing, MotionExportAction::Probe),
        },
        (MotionExportState::Probing, MotionExportEvent::Probed(info)) => match check_clip_end(
            options.end,
            &info,
        ) {
            Err(e) => (
                MotionExportState::Finished,
                MotionExportAction::Finish(Err(MotionExportError::Refused(e))),
            ),
            Ok(()) => (MotionExportState::RenderingCover, MotionExportAction::RenderCover),
        },
        (MotionExportState::RenderingCover, MotionExportEvent::CoverRendered(cover)) => {
            if !is_jpeg_cover(cover.as_slice()) {
                return (
                    MotionExportState::Finished,
                    MotionExportAction::Finish(Err(MotionExportError::NoJpegCover)),
                );
            }
            match video_budget(cover.len(), options.max_output_size) {
                Err(e) => (
                    MotionExportState::Finished,
                    MotionExportAction::Finish(Err(MotionExportError::Refused(e))),
                ),
                Ok(budget) => (
                    MotionExportState::Encoding { cover, budget },
                    MotionExportAction::EncodeClip { budget },
                ),
            }
        },
        (MotionExportState::Encoding { cover, budget }, MotionExportEvent::ClipEncoded(n)) => {
            let timestamp = match cover_timestamp(options.start, options.cover_time) {
                Err(e) => {
                    return (
                        MotionExportState::Finished,
                        MotionExportAction::Finish(Err(MotionExportError::Refused(e))),
                    );
                },
                Ok(t) => t,
            };
            let jpeg = match insert_motion_photo_xmp(cover, n, timestamp) {
                Err(e) => {
                    return (
                        MotionExportState::Finished,
                        MotionExportAction::Finish(Err(MotionExportError::Container(e))),
                    );
                },
                Ok(j) => j,
            };
            match check_output_size(jpeg.len(), n, options.max_output_size) {
                Err(e) => (
                    MotionExportState::Finished,
                    MotionExportAction::Finish(Err(MotionExportError::Refused(e))),
                ),
                Ok(()) => (MotionExportState::Writing, MotionExportAction::Write { jpeg }),
            }
        },
        (MotionExportState::Writing, MotionExportEvent::Written) => (
            MotionExportState::Finished,
            MotionExportAction::Finish(Ok(())),
        ),
        (MotionExportState::Probing, _) => (
            MotionExportState::Finished,
            MotionExportAction::Finish(Err(MotionExportError::Failed(ExportStep::Probe))),
        ),
        (MotionExportState::RenderingCover, _) => (
            MotionExportState::Finished,
            MotionExportAction::Finish(Err(MotionExportError::Failed(ExportStep::Cover))),
        ),
        (MotionExportState::Encoding { .. }, _) => (
            MotionExportState::Finished,
            MotionExportAction::Finish(Err(MotionExportError::Failed(ExportStep::Encode))),
        ),
        (_, _) => (
            MotionExportState::Finished,
            MotionExportAction::Finish(Err(MotionExportError::Failed(ExportStep::Write))),
        ),
    }
}

/// The file is written only right after the clip is encoded, with the cover carrying
/// exactly the Motion Photo metadata for that clip, and only when cover and clip together
/// fit the size limit.
pub proof fn lemma_written_only_when_it_fits<P>(
    state: MotionExportState,
    options: MotionPhotoOptions<P>,
    event: MotionExportEvent,
    next: MotionExportState,
    jpeg: Vec<u8>,
)
    requires
        export_step_is(state, options, event, next, MotionExportAction::Write { jpeg }),
    ensures
        state is Encoding,
        event is ClipEncoded,
        ({
            let cover = state->cover;
            let n = event->ClipEncoded_0;
            &&& jpeg@.len() + n <= options.max_output_size
            &&& spec_insert_motion_photo_xmp(cover@, n as nat, cover_micros(options) as nat)
                == Ok::<Seq<u8>, ContainerError>(jpeg@)
        }),
{
}

/// No video tool runs for options that the checks refuse: the export ends at once.
pub proof fn lemma_refused_options_run_no_tool<P>(
    options: MotionPhotoOptions<P>,
    next: MotionExportState,
    action: MotionExportAction,
)
    requires
        spec_check_export_options(options) is Err,
        export_step_is(MotionExportState::Idle, options, MotionExportEvent::Start, next, action),
    ensures
        next is Finished,
        action matches MotionExportAction::Finish(Err(_)),
{
}

/// The clip is encoded only right after a JPEG cover came back that leaves room in the
/// size limit, and its budget is exactly the room left.
pub proof fn lemma_encoded_only_after_a_fitting_cover<P>(
    state: MotionExportState,
    options: MotionPhotoOptions<P>,
    event: MotionExportEvent,
    next: MotionExportState,
    budget: u64,
)
    requires
        export_step_is(state, options, event, next, MotionExportAction::EncodeClip { budget }),
    ensures
        state is RenderingCover,
        event is CoverRendered,
        ({
            let c = event->CoverRendered_0;
            &&& c@.len() >= 2 && c@[0] == 0xff && c@[1] == 0xd8
            &&& c@.len() < options.max_output_size
            &&& budget == options.max_output_size - c@.len()
        }),
{
}

} // verus!
