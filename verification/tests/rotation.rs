use lumen_frame::rotation::Rotation;

#[test]
fn rotation_cycles_through_four_quarter_turns() {
    let rotation = Rotation::Unrotated.next().next().next().next();
    assert_eq!(rotation, Rotation::Unrotated);
}

#[test]
fn ffmpeg_filters_match_the_selected_turn() {
    assert_eq!(Rotation::Unrotated.ffmpeg_filter(), None);
    assert_eq!(
        Rotation::Clockwise90.ffmpeg_filter(),
        Some("transpose=clock")
    );
    assert_eq!(Rotation::HalfTurn.ffmpeg_filter(), Some("hflip,vflip"));
    assert_eq!(
        Rotation::CounterClockwise90.ffmpeg_filter(),
        Some("transpose=cclock")
    );
}

#[test]
fn rotation_degrees_step_by_quarter_turns() {
    let mut rotation = Rotation::Unrotated;
    let mut seen = Vec::new();
    for _ in 0..5 {
        seen.push(rotation.degrees());
        rotation = rotation.next();
    }
    assert_eq!(seen, vec![0, 90, 180, 270, 0]);
}

#[test]
fn the_default_rotation_turns_nothing() {
    let r = Rotation::default();
    assert_eq!(r, Rotation::Unrotated);
    assert_eq!(r.degrees(), 0);
    assert_eq!(r.ffmpeg_filter(), None);
}
