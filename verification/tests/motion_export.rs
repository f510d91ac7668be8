use lumen_frame::features::motion_photo::container::insert_motion_photo_xmp;
use lumen_frame::features::motion_photo::export::{
    motion_export_step, ExportStep, MotionExportAction, MotionExportError, MotionExportEvent,
    MotionExportState,
};
use lumen_frame::features::motion_photo::{MotionPhotoError, MotionPhotoOptions, MotionPhotoVideoInfo};
use lumen_frame::rotation::Rotation;
use lumen_frame::time::TimeSpan;

fn options(max_output_size: u64) -> MotionPhotoOptions<&'static str> {
    MotionPhotoOptions {
        ffmpeg_path: "ffmpeg",
        video_path: "in.mp4",
        output_path: "out.jpg",
        start: TimeSpan::from_secs(1),
        end: TimeSpan::from_secs(3),
        cover_time: TimeSpan::from_secs(2),
        jpeg_quality: 92,
        rotation: Rotation::Unrotated,
        max_output_size,
    }
}

fn info(secs: u64) -> MotionPhotoVideoInfo {
    MotionPhotoVideoInfo { duration: TimeSpan::from_secs(secs), width: 1920, height: 1080 }
}

#[test]
fn an_export_probes_renders_encodes_and_writes_in_order() {
    let o = options(1_000_000);
    let (s, a) = motion_export_step(MotionExportState::Idle, &o, MotionExportEvent::Start);
    assert!(matches!((&s, &a), (MotionExportState::Probing, MotionExportAction::Probe)));
    let (s, a) = motion_export_step(s, &o, MotionExportEvent::Probed(info(10)));
    assert!(matches!((&s, &a), (MotionExportState::RenderingCover, MotionExportAction::RenderCover)));
    let cover = vec![0xff, 0xd8, 1, 2, 0xff, 0xd9];
    let (s, a) = motion_export_step(s, &o, MotionExportEvent::CoverRendered(cover.clone()));
    assert!(matches!(a, MotionExportAction::EncodeClip { budget: 999_994 }));
    let (s, a) = motion_export_step(s, &o, MotionExportEvent::ClipEncoded(5000));
    let expected = insert_motion_photo_xmp(cover, 5000, 1_000_000).unwrap();
    match a {
        MotionExportAction::Write { jpeg } => assert_eq!(jpeg, expected),
        other => panic!("expected a write, got {other:?}"),
    }
    let (s, a) = motion_export_step(s, &o, MotionExportEvent::Written);
    assert!(matches!((s, a), (MotionExportState::Finished, MotionExportAction::Finish(Ok(())))));
}

#[test]
fn refused_options_run_no_tool() {
    let mut o = options(1_000_000);
    o.jpeg_quality = 0;
    let (_, a) = motion_export_step(MotionExportState::Idle, &o, MotionExportEvent::Start);
    assert!(matches!(
        a,
        MotionExportAction::Finish(Err(MotionExportError::Refused(MotionPhotoError::InvalidQuality)))
    ));
}

#[test]
fn a_clip_past_the_video_or_a_bad_cover_stops_the_export() {
    let o = options(1_000_000);
    let (_, a) = motion_export_step(MotionExportState::Probing, &o, MotionExportEvent::Probed(info(2)));
    assert!(matches!(
        a,
        MotionExportAction::Finish(Err(MotionExportError::Refused(MotionPhotoError::EndPastVideo)))
    ));
    let (_, a) = motion_export_step(MotionExportState::RenderingCover, &o, MotionExportEvent::CoverRendered(vec![1, 2, 3]));
    assert!(matches!(a, MotionExportAction::Finish(Err(MotionExportError::NoJpegCover))));
    let small = options(4);
    let (_, a) = motion_export_step(
        MotionExportState::RenderingCover,
        &small,
        MotionExportEvent::CoverRendered(vec![0xff, 0xd8, 0xff, 0xd9]),
    );
    assert!(matches!(
        a,
        MotionExportAction::Finish(Err(MotionExportError::Refused(MotionPhotoError::CoverTooLarge)))
    ));
}

#[test]
fn an_oversized_result_is_not_written_and_a_failed_tool_is_reported() {
    let o = options(300);
    let state = MotionExportState::Encoding { cover: vec![0xff, 0xd8, 0xff, 0xd9], budget: 296 };
    let (_, a) = motion_export_step(state, &o, MotionExportEvent::ClipEncoded(200));
    assert!(matches!(
        a,
        MotionExportAction::Finish(Err(MotionExportError::Refused(MotionPhotoError::OutputTooLarge)))
    ));
    let (s, a) = motion_export_step(MotionExportState::Probing, &o, MotionExportEvent::Failed);
    assert!(matches!(
        (s, a),
        (MotionExportState::Finished, MotionExportAction::Finish(Err(MotionExportError::Failed(ExportStep::Probe))))
    ));
}
