use lumen_frame::persistence::settings::{default_preview_background, DEFAULT_PREVIEW_BACKGROUND};
use lumen_frame::photo::ultra_hdr_resize_scale;
use lumen_frame::process::text::{TextAlign, TextDirection};
use lumen_frame::ui::component::field::{hex_string, parse_hex};
use lumen_frame::ui::component::queue::is_supported_image;
use lumen_frame::ui::component::text_section::{align_label, direction_label, group_aligns, position_label};
use lumen_frame::ui::image::rgb_to_bgra;
use lumen_frame::ui::page::settings::{
    default_theme_index, preview_max_edge_from_settings, theme_index, ThemeMode,
    DEFAULT_PREVIEW_MAX_EDGE,
};
use lumen_frame::Position;

#[test]
fn only_ultra_hdr_exports_are_limited_to_8192() {
    let scale = |max_dim, has_gainmap| {
        ultra_hdr_resize_scale(max_dim, has_gainmap)
            .map(|(target, edge)| target as f64 / edge as f64)
    };
    assert_eq!(scale(9_000, false), None);
    assert_eq!(scale(8_192, true), None);
    assert_eq!(scale(16_384, true), Some(0.5));
}

#[test]
fn group_alignment_labels_follow_group_position() {
    assert_eq!(
        group_aligns(Position::Up),
        &[
            ("左侧", TextAlign::Left),
            ("居中", TextAlign::Center),
            ("右侧", TextAlign::Right),
        ]
    );
    assert_eq!(
        group_aligns(Position::Right),
        &[
            ("上侧", TextAlign::Left),
            ("居中", TextAlign::Center),
            ("下侧", TextAlign::Right),
        ]
    );
    assert_eq!(align_label(TextAlign::Left, Position::Left), "上侧");
    assert_eq!(align_label(TextAlign::Right, Position::Right), "下侧");
    assert_eq!(align_label(TextAlign::Left, Position::Bottom), "左侧");
    assert_eq!(align_label(TextAlign::Right, Position::Up), "右侧");
}

#[test]
fn position_and_direction_labels() {
    assert_eq!(position_label(Position::Center), "居中");
    assert_eq!(position_label(Position::Left), "靠左");
    assert_eq!(direction_label(TextDirection::Vertical), "竖排");
    assert_eq!(direction_label(TextDirection::default()), "横排");
    assert_eq!(TextAlign::default(), TextAlign::Center);
}

#[test]
fn saved_theme_is_selected_before_the_default() {
    let names = vec!["Default Light".to_string(), "Catppuccin Latte".to_string()];

    assert_eq!(
        theme_index(&names, ThemeMode::Light, Some("Catppuccin Latte")),
        Some(1)
    );
}

#[test]
fn theme_selection_falls_back_to_default_then_first() {
    let names = vec!["Ayu".to_string(), "Default Dark".to_string(), "Default Light".to_string()];
    assert_eq!(theme_index(&names, ThemeMode::Dark, Some("Missing")), Some(1));
    assert_eq!(theme_index(&names, ThemeMode::Light, None), Some(2));
    assert_eq!(default_theme_index(&names[..1], ThemeMode::Light), Some(0));
    assert_eq!(default_theme_index(&[], ThemeMode::Dark), None);
}

#[test]
fn preview_edges_outside_the_range_fall_back() {
    assert_eq!(preview_max_edge_from_settings(Some(2000)), 2000);
    assert_eq!(preview_max_edge_from_settings(Some(160)), 160);
    assert_eq!(preview_max_edge_from_settings(Some(159)), DEFAULT_PREVIEW_MAX_EDGE);
    assert_eq!(preview_max_edge_from_settings(Some(9000)), 1600);
    assert_eq!(preview_max_edge_from_settings(None), 1600);
}

#[test]
fn colours_round_trip_through_hex() {
    assert_eq!(hex_string([0x9a, 0xa7, 0xb1]), "#9AA7B1");
    assert_eq!(hex_string([0, 15, 255]), "#000FFF");
    for rgb in [[0, 0, 0], [255, 255, 255], [0x12, 0xab, 0xcd]] {
        assert_eq!(parse_hex(&hex_string(rgb)), Some(rgb));
    }
}

#[test]
fn typed_colours_accept_short_and_signed_forms() {
    assert_eq!(parse_hex("  #ff8000 "), Some([0xff, 0x80, 0x00]));
    assert_eq!(parse_hex("F80"), Some([0xff, 0x88, 0x00]));
    assert_eq!(parse_hex("## abc"), Some([0xaa, 0xbb, 0xcc]));
    assert_eq!(parse_hex("+FFFFF"), Some([0x0f, 0xff, 0xff]));
    assert_eq!(parse_hex("+AB"), None);
    assert_eq!(parse_hex("12345"), None);
    assert_eq!(parse_hex("GGGGGG"), None);
    assert_eq!(parse_hex("中中"), None);
    assert_eq!(parse_hex(""), None);
}

#[test]
fn rgb_pixels_become_bgra() {
    assert_eq!(rgb_to_bgra(&[1, 2, 3, 4, 5, 6, 7]), vec![3, 2, 1, 255, 6, 5, 4, 255]);
    assert!(rgb_to_bgra(&[1, 2]).is_empty());
}

#[test]
fn supported_images_go_by_extension() {
    assert!(is_supported_image("DSC_0001.JPG"));
    assert!(is_supported_image("a.b.Nef"));
    assert!(is_supported_image("photo.heic"));
    assert!(!is_supported_image(".jpg"));
    assert!(!is_supported_image("notes.txt"));
    assert!(!is_supported_image("jpg"));
    assert!(!is_supported_image(".."));
    assert!(!is_supported_image("archive.jpg.zip"));
}

#[test]
fn preview_background_defaults() {
    assert_eq!(default_preview_background(), DEFAULT_PREVIEW_BACKGROUND);
    assert_eq!(DEFAULT_PREVIEW_BACKGROUND, [0x9a, 0xa7, 0xb1]);
}
