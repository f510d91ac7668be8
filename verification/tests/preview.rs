use lumen_frame::ui::preview::{LatestPreview, LoadState, PreviewState, WatermarkPreview};

#[test]
fn requests_made_during_the_wait_are_coalesced_into_the_latest() {
    let mut preview: WatermarkPreview<&str, u32> = WatermarkPreview::new();
    assert!(matches!(preview.state(), PreviewState::Empty));
    assert!(preview.request("first"));
    assert!(!preview.request("second"));
    assert_eq!(preview.next_job(), Some(("second", 2)));
    assert!(matches!(preview.state(), PreviewState::Rendering { previous: None }));
    assert!(preview.finish(2, Ok(20)));
    assert!(matches!(preview.state(), PreviewState::Ready(20)));
    assert_eq!(preview.next_job(), None);
    assert!(preview.request("third"));
}

#[test]
fn an_outdated_render_never_replaces_a_newer_state() {
    let mut preview: WatermarkPreview<&str, u32> = WatermarkPreview::new();
    preview.request("a");
    let (_, first) = preview.next_job().unwrap();
    assert!(preview.finish(first, Ok(1)));
    preview.request("b");
    let (_, second) = preview.next_job().unwrap();
    // The previous image stays on screen while "b" renders.
    assert_eq!(preview.state().image(), Some(&1));
    preview.request("c");
    assert!(!preview.finish(second, Ok(2)));
    assert_eq!(preview.state().image(), Some(&1));
    let (job, third) = preview.next_job().unwrap();
    assert_eq!(job, "c");
    assert!(preview.finish(third, Err("decoding failed".to_string())));
    assert!(matches!(preview.state(), PreviewState::Failed(message) if message == "decoding failed"));
}

#[test]
fn clearing_drops_the_request_and_outdates_the_render() {
    let mut preview: WatermarkPreview<&str, u32> = WatermarkPreview::new();
    preview.request("a");
    let (_, generation) = preview.next_job().unwrap();
    preview.request("b");
    preview.clear();
    assert!(matches!(preview.state(), PreviewState::Empty));
    assert!(!preview.finish(generation, Ok(1)));
    assert!(matches!(preview.state(), PreviewState::Empty));
    assert_eq!(preview.next_job(), None);
}

#[test]
fn one_shot_previews_show_only_the_latest_outcome() {
    let mut preview: LatestPreview<Result<u32, String>> = LatestPreview::new();
    assert!(matches!(preview.state(), LoadState::Empty));
    let first = preview.request();
    let second = preview.request();
    assert!(matches!(preview.state(), LoadState::Loading));
    assert!(!preview.finish(first, Ok(1)));
    assert!(matches!(preview.state(), LoadState::Loading));
    assert!(preview.finish(second, Ok(2)));
    assert!(matches!(preview.state(), LoadState::Done(Ok(2))));
    let third = preview.request();
    preview.clear();
    assert!(!preview.finish(third, Ok(3)));
    assert!(matches!(preview.state(), LoadState::Empty));
}
