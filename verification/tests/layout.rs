use lumen_frame::process::image;
use lumen_frame::render::canvas::Margin;
use lumen_frame::render::image::cal_coordinates;
use lumen_frame::Position;

fn margin() -> Margin {
    Margin { top: 10, right: 20, bottom: 30, left: 40 }
}

#[test]
fn photo_placement_follows_position() {
    let m = margin();
    assert_eq!(cal_coordinates(&m, 200, 100, 100, 40, Position::Center), (60, 20));
    assert_eq!(cal_coordinates(&m, 200, 100, 100, 40, Position::Up), (60, 10));
    assert_eq!(cal_coordinates(&m, 200, 100, 100, 40, Position::Bottom), (60, 30));
    assert_eq!(cal_coordinates(&m, 200, 100, 100, 40, Position::Left), (40, 20));
    assert_eq!(cal_coordinates(&m, 200, 100, 100, 40, Position::Right), (80, 20));
    assert_eq!(image::cal_coordinates(&m, 201, 100, 100, 40, Position::Center), (60, 20));
}

#[test]
fn oversized_photos_are_centred_with_truncating_halves() {
    let m = Margin { top: 0, right: 0, bottom: 0, left: 0 };
    assert_eq!(cal_coordinates(&m, 10, 10, 13, 13, Position::Center), (-1, -1));
}

#[test]
fn text_bands_widen_one_side() {
    let mut m = margin();
    m.include_text_thickness(Position::Bottom, 5);
    assert_eq!(m, Margin { top: 10, right: 20, bottom: 35, left: 40 });
    m.include_text_thickness(Position::Center, 5);
    assert_eq!(m, Margin { top: 10, right: 20, bottom: 35, left: 40 });
    m.include_text_thickness(Position::Up, 1);
    m.include_text_thickness(Position::Left, 2);
    m.include_text_thickness(Position::Right, 3);
    assert_eq!(m, Margin { top: 11, right: 23, bottom: 35, left: 42 });
}

use lumen_frame::photo::{include_text_layers, text_bands, text_layer_position, PhotoBox, TextLayer};
use lumen_frame::process::text::TextAlign;

fn layer(position: Position, align: TextAlign, width: i32, height: i32) -> TextLayer {
    TextLayer { position, align, width, height }
}

#[test]
fn each_side_takes_the_band_of_its_thickest_layer() {
    let layers = vec![
        layer(Position::Bottom, TextAlign::Center, 900, 80),
        layer(Position::Bottom, TextAlign::Left, 300, 120),
        layer(Position::Left, TextAlign::Center, 60, 500),
        layer(Position::Center, TextAlign::Center, 400, 400),
    ];
    assert_eq!(text_bands(&layers), [0, 0, 120, 60]);
    assert_eq!(text_bands(&Vec::new()), [0, 0, 0, 0]);
}

#[test]
fn text_layers_widen_the_border_once_per_side() {
    let layers = vec![
        layer(Position::Up, TextAlign::Center, 200, 40),
        layer(Position::Up, TextAlign::Right, 200, 30),
        layer(Position::Right, TextAlign::Center, 50, 300),
    ];
    let mut margin = Margin { top: 10, right: 20, bottom: 30, left: 40 };
    include_text_layers(&mut margin, &layers);
    assert_eq!(margin, Margin { top: 50, right: 70, bottom: 30, left: 40 });
}

#[test]
fn text_layers_are_centred_in_their_band_and_aligned_along_the_photo() {
    let photo = PhotoBox { x: 100, y: 50, width: 1000, height: 800, canvas_width: 1200, canvas_height: 1000 };
    // Below: the band runs from 850 to 1000.
    assert_eq!(text_layer_position(&layer(Position::Bottom, TextAlign::Center, 400, 50), &photo), (400, 900));
    assert_eq!(text_layer_position(&layer(Position::Bottom, TextAlign::Left, 400, 50), &photo), (100, 900));
    assert_eq!(text_layer_position(&layer(Position::Bottom, TextAlign::Right, 400, 50), &photo), (700, 900));
    // Above: the band runs from 0 to 50.
    assert_eq!(text_layer_position(&layer(Position::Up, TextAlign::Center, 400, 30), &photo), (400, 10));
    // Beside: the bands are 100 wide on the left and right.
    assert_eq!(text_layer_position(&layer(Position::Left, TextAlign::Center, 40, 200), &photo), (30, 350));
    assert_eq!(text_layer_position(&layer(Position::Right, TextAlign::Right, 40, 200), &photo), (1130, 650));
    // Over the photo.
    assert_eq!(text_layer_position(&layer(Position::Center, TextAlign::Center, 400, 100), &photo), (400, 400));
}

#[test]
fn a_layer_too_big_for_its_band_overhangs_the_canvas_edge_by_half() {
    // The division rounds toward zero, as the integer division of the layout does.
    let photo = PhotoBox { x: 10, y: 10, width: 100, height: 100, canvas_width: 120, canvas_height: 120 };
    assert_eq!(text_layer_position(&layer(Position::Up, TextAlign::Left, 50, 31), &photo), (10, -10));
}
