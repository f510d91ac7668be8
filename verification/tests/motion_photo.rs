use lumen_frame::features::motion_photo::container::{app1_segment, insert_motion_photo_xmp, ContainerError};
use lumen_frame::features::motion_photo::{
    check_clip_end, check_export_options, check_output_size, cover_timestamp, validate_range,
    video_budget, MotionPhotoError, MotionPhotoOptions, MotionPhotoVideoInfo,
    DEFAULT_MAX_OUTPUT_SIZE,
};
use lumen_frame::process::motion_photo;
use lumen_frame::rotation::Rotation;
use lumen_frame::time::TimeSpan;

fn contains(haystack: &[u8], needle: &[u8]) -> bool {
    haystack.windows(needle.len()).any(|window| window == needle)
}

#[test]
fn container_inserts_xmp() {
    let jpeg = insert_motion_photo_xmp(vec![0xff, 0xd8, 0xff, 0xd9], 123, 456).unwrap();
    assert!(
        jpeg.windows(b"GCamera:MotionPhoto=\"1\"".len())
            .any(|window| window == b"GCamera:MotionPhoto=\"1\"")
    );
}

#[test]
fn motion_photo_inserts_xmp() {
    let jpeg = motion_photo::insert_motion_photo_xmp(vec![0xff, 0xd8, 0xff, 0xd9], 123, 456).unwrap();
    assert!(
        jpeg.windows(b"GCamera:MotionPhoto=\"1\"".len())
            .any(|x| x == b"GCamera:MotionPhoto=\"1\"")
    );
}

#[test]
fn motion_photo_layout_puts_exif_then_xmp_then_cover() {
    let jpeg = insert_motion_photo_xmp(vec![0xff, 0xd8, 0xff, 0xd9], 123, 456).unwrap();
    assert_eq!(&jpeg[..2], &[0xff, 0xd8]);
    assert_eq!(&jpeg[2..6], &[0xff, 0xe1, 0x00, 24]);
    assert_eq!(&jpeg[6..12], b"Exif\0\0");
    assert_eq!(&jpeg[28..30], &[0xff, 0xe1]);
    let xmp_len = u16::from_be_bytes([jpeg[30], jpeg[31]]) as usize;
    assert_eq!(28 + 2 + xmp_len + 2, jpeg.len());
    assert_eq!(&jpeg[jpeg.len() - 2..], &[0xff, 0xd9]);
    assert!(contains(&jpeg, b"GCamera:MotionPhotoPresentationTimestampUs=\"456\""));
    assert!(contains(&jpeg, b"Item:Length=\"123\" Item:Padding=\"0\""));
    assert!(jpeg[32..].starts_with(b"http://ns.adobe.com/xap/1.0/\0<x:xmpmeta"));
}

#[test]
fn motion_photo_needs_a_jpeg_cover() {
    assert_eq!(insert_motion_photo_xmp(vec![0x89, 0x50], 1, 1), Err(ContainerError::NotJpeg));
    assert_eq!(insert_motion_photo_xmp(vec![0xff], 1, 1), Err(ContainerError::NotJpeg));
}

#[test]
fn app1_segments_count_their_length_field() {
    assert_eq!(app1_segment(b"abc").unwrap(), vec![0xff, 0xe1, 0, 5, b'a', b'b', b'c']);
    assert_eq!(app1_segment(&vec![0u8; 65534]), Err(ContainerError::SegmentTooLong));
    assert_eq!(app1_segment(&vec![0u8; 65533]).unwrap().len(), 65537);
}

fn secs(s: u64) -> TimeSpan {
    TimeSpan::from_secs(s)
}

#[test]
fn clip_ranges_are_checked() {
    assert_eq!(validate_range(secs(1), secs(2), secs(1)), Ok(()));
    assert_eq!(validate_range(secs(2), secs(2), secs(2)), Err(MotionPhotoError::EndNotAfterStart));
    assert_eq!(validate_range(secs(0), secs(10), secs(9)), Ok(()));
    assert_eq!(
        validate_range(secs(0), TimeSpan::new(10, 1), secs(9)),
        Err(MotionPhotoError::ClipTooLong)
    );
    assert_eq!(validate_range(secs(1), secs(3), secs(3)), Err(MotionPhotoError::CoverOutsideClip));
    assert_eq!(validate_range(secs(1), secs(3), secs(0)), Err(MotionPhotoError::CoverOutsideClip));
}

fn options(quality: u8, max: u64) -> MotionPhotoOptions<&'static str> {
    MotionPhotoOptions {
        ffmpeg_path: "ffmpeg",
        video_path: "in.mp4",
        output_path: "out.jpg",
        start: secs(1),
        end: secs(2),
        cover_time: secs(1),
        jpeg_quality: quality,
        rotation: Rotation::Clockwise90,
        max_output_size: max,
    }
}

#[test]
fn export_options_are_checked_before_video_work() {
    assert_eq!(check_export_options(&options(92, DEFAULT_MAX_OUTPUT_SIZE)), Ok(()));
    assert_eq!(check_export_options(&options(0, 1)), Err(MotionPhotoError::InvalidQuality));
    assert_eq!(check_export_options(&options(101, 1)), Err(MotionPhotoError::InvalidQuality));
    assert_eq!(check_export_options(&options(100, 0)), Err(MotionPhotoError::ZeroSizeLimit));
    let mut bad = options(92, 1);
    bad.end = secs(1);
    assert_eq!(check_export_options(&bad), Err(MotionPhotoError::EndNotAfterStart));
}

#[test]
fn export_budget_and_sizes() {
    let info = MotionPhotoVideoInfo { duration: secs(5), width: 1920, height: 1080 };
    assert_eq!(check_clip_end(secs(5), &info), Ok(()));
    assert_eq!(check_clip_end(TimeSpan::new(5, 1), &info), Err(MotionPhotoError::EndPastVideo));
    assert_eq!(video_budget(1000, 33_554_432), Ok(33_553_432));
    assert_eq!(video_budget(100, 100), Err(MotionPhotoError::CoverTooLarge));
    assert_eq!(DEFAULT_MAX_OUTPUT_SIZE, 32 * 1024 * 1024);
    assert_eq!(check_output_size(10, 20, 30), Ok(()));
    assert_eq!(check_output_size(10, 21, 30), Err(MotionPhotoError::OutputTooLarge));
}

#[test]
fn cover_timestamps_are_microseconds_from_the_clip_start() {
    assert_eq!(cover_timestamp(secs(1), TimeSpan::new(2, 500_999)), Ok(1_000_500));
    assert_eq!(cover_timestamp(secs(3), secs(1)), Ok(0));
}

#[test]
fn time_spans_keep_nanoseconds() {
    let t = TimeSpan::new(3, 1_500_000_000);
    assert_eq!(t.as_secs(), 4);
    assert_eq!(t.subsec_nanos(), 500_000_000);
    assert_eq!(t.as_nanos(), 4_500_000_000);
    assert_eq!(t.as_micros(), 4_500_000);
    assert!(secs(1).lt(&t) && !t.lt(&t) && t.le(&t));
    assert_eq!(t.checked_sub(&secs(5)), None);
    assert_eq!(TimeSpan::from_nanos(u128::MAX), None);
    assert_eq!(TimeSpan::zero().as_nanos(), 0);
}
