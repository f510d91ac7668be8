use lumen_frame::ui::page::other_tools::{can_export_motion_photo, motion_export_label, motion_photo_file_name};
use lumen_frame::time::TimeSpan;
use lumen_frame::ui::page::other_tools::{
    adjusted_motion_max_size, initial_motion_times, motion_max_size_bytes, updated_motion_times,
    MotionTimeControl,
};

fn secs(s: u64) -> TimeSpan {
    TimeSpan::from_secs(s)
}

#[test]
fn motion_time_controls_can_select_anywhere_in_a_long_video() {
    let (start, end, cover) = updated_motion_times(
        MotionTimeControl::Start,
        secs(100),
        secs(216),
        TimeSpan::zero(),
        secs(10),
        secs(5),
    );

    assert_eq!(start, secs(100));
    assert_eq!(end, secs(110));
    assert_eq!(cover, secs(100));
}

#[test]
fn motion_time_controls_keep_the_clip_within_ten_seconds() {
    let (start, end, cover) = updated_motion_times(
        MotionTimeControl::End,
        secs(42),
        secs(216),
        secs(5),
        secs(15),
        secs(10),
    );

    assert_eq!(start, secs(32));
    assert_eq!(end, secs(42));
    assert_eq!(cover, secs(32));
}

#[test]
fn cover_is_clamped_inside_the_selected_clip() {
    let (start, end, cover) = updated_motion_times(
        MotionTimeControl::Cover,
        secs(30),
        secs(60),
        secs(20),
        secs(25),
        secs(22),
    );

    assert_eq!(start, secs(20));
    assert_eq!(end, secs(25));
    assert!(cover.as_nanos() >= start.as_nanos() && cover.as_nanos() < end.as_nanos());
}

#[test]
fn cover_past_the_clip_stops_a_microsecond_before_its_end() {
    let (_, _, cover) = updated_motion_times(
        MotionTimeControl::Cover,
        secs(30),
        secs(60),
        secs(20),
        secs(25),
        secs(22),
    );
    assert_eq!(cover.as_nanos(), 25_000_000_000 - 1_000);
}

#[test]
fn moving_the_start_past_the_end_drags_the_end_along() {
    // The clip keeps its length of three seconds.
    let (start, end, cover) = updated_motion_times(
        MotionTimeControl::Start,
        secs(8),
        secs(60),
        secs(2),
        secs(5),
        secs(3),
    );
    assert_eq!((start, end), (secs(8), secs(11)));
    assert_eq!(cover, secs(8));
}

#[test]
fn the_start_leaves_room_for_the_shortest_clip() {
    let (start, end, _) = updated_motion_times(
        MotionTimeControl::Start,
        secs(60),
        secs(60),
        secs(50),
        secs(55),
        secs(52),
    );
    assert_eq!(start.as_nanos(), 60_000_000_000 - 100_000_000);
    assert_eq!(end, secs(60));
}

#[test]
fn moving_the_end_before_the_start_drags_the_start_back() {
    let (start, end, cover) = updated_motion_times(
        MotionTimeControl::End,
        secs(10),
        secs(60),
        secs(20),
        secs(24),
        secs(22),
    );
    assert_eq!((start, end), (secs(6), secs(10)));
    assert_eq!(cover.as_nanos(), 10_000_000_000 - 1_000);
}

#[test]
fn a_request_past_the_video_stops_at_its_end() {
    let (start, end, _) = updated_motion_times(
        MotionTimeControl::End,
        secs(500),
        secs(60),
        secs(55),
        secs(58),
        secs(56),
    );
    assert_eq!((start, end), (secs(55), secs(60)));
}

#[test]
fn a_new_video_starts_with_its_first_ten_seconds() {
    assert_eq!(
        initial_motion_times(secs(216)),
        Some((TimeSpan::zero(), secs(10), secs(5)))
    );
    assert_eq!(
        initial_motion_times(secs(4)),
        Some((TimeSpan::zero(), secs(4), secs(2)))
    );
    assert_eq!(initial_motion_times(TimeSpan::zero()), None);
}

#[test]
fn size_limit_steps_stay_between_one_and_1024_megabytes() {
    assert_eq!(adjusted_motion_max_size(32, 1), 33);
    assert_eq!(adjusted_motion_max_size(32, -1), 31);
    assert_eq!(adjusted_motion_max_size(1, -1), 1);
    assert_eq!(adjusted_motion_max_size(1024, 1), 1024);
    assert_eq!(motion_max_size_bytes(32), 32 * 1024 * 1024);
}

#[test]
fn the_motion_photo_export_needs_a_video_ffmpeg_and_no_export_running() {
    assert!(can_export_motion_photo(true, true, false));
    assert!(!can_export_motion_photo(false, true, false));
    assert!(!can_export_motion_photo(true, false, false));
    assert!(!can_export_motion_photo(true, true, true));
    assert_eq!(motion_export_label(true), "正在导出…");
    assert_eq!(motion_export_label(false), "导出 Motion Photo…");
    assert_eq!(motion_photo_file_name(Some("IMG_0001")), "IMG_0001_motion_photo.jpg");
    assert_eq!(motion_photo_file_name(None), "video_motion_photo.jpg");
}
