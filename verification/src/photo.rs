//! The integer layout of a watermarked photo (text bands, where each text layer goes)
//! and export decisions. Pixels are libvips's; this module says where they go.

use vstd::prelude::*;

use crate::chars::chars_of;
use crate::process::text::TextAlign;
use crate::render::canvas::Margin;
use crate::render::image::half;
use crate::Position;

verus! {

/// The longest edge libultrahdr accepts as input.
pub const ULTRA_HDR_MAX_EDGE: i32 = 8192;

/// How far an export must shrink before Ultra HDR encoding, as the fraction
/// `target / longest edge`; `None` when it need not.
///
/// The limit belongs to libultrahdr alone, so only outputs that carry a gain map are
/// shrunk; plain JPEGs keep their size.
pub fn ultra_hdr_resize_scale(max_dim: i32, has_gainmap: bool) -> (r: Option<(i32, i32)>)
    ensures
        has_gainmap && max_dim > ULTRA_HDR_MAX_EDGE ==> r == Some((ULTRA_HDR_MAX_EDGE, max_dim)),
        !(has_gainmap && max_dim > ULTRA_HDR_MAX_EDGE) ==> r is None,
{
    if has_gainmap && max_dim > ULTRA_HDR_MAX_EDGE {
        Some((ULTRA_HDR_MAX_EDGE, max_dim))
    } else {
        None
    }
}


/// A rendered text group: where it sits, how it is aligned along the photo, and its size
/// in pixels once rotated.
#[derive(Debug, Clone, Copy, PartialEq, Eq)]
pub struct TextLayer {
    pub position: Position,
    pub align: TextAlign,
    pub width: i32,
    pub height: i32,
}

/// The side a position grows: top, right, bottom, left; a centred group grows none.
pub open spec fn side_of(p: Position) -> int {
    match p {
        Position::Up => 0,
        Position::Right => 1,
        Position::Bottom => 2,
        Position::Left => 3,
        Position::Center => -1,
    }
}

/// How far a layer reaches out from the photo: its height above or below it, its width
/// beside it.
pub open spec fn layer_thickness(l: TextLayer) -> int {
    match l.position {
        Position::Up | Position::Bottom => l.height as int,
        Position::Left | Position::Right => l.width as int,
        Position::Center => 0,
    }
}

/// The band the layers need on `side`: the thickest layer there, or 0.
pub open spec fn band(layers: Seq<TextLayer>, side: int) -> int
    decreases layers.len(),
{
    if layers.len() == 0 {
        0
    } else {
        let rest = band(layers.drop_last(), side);
        let l = layers.last();
        if side_of(l.position) == side && layer_thickness(l) > rest {
            layer_thickness(l)
        } else {
            rest
        }
    }
}

fn thickness(l: &TextLayer) -> (t: i32)
    ensures
        t == layer_thickness(*l),
{
    match l.position {
        Position::Up | Position::Bottom => l.height,
        Position::Left | Position::Right => l.width,
        Position::Center => 0,
    }
}

/// The band each side needs for the text layers: top, right, bottom, left.
pub fn text_bands(layers: &Vec<TextLayer>) -> (r: [i32; 4])
    ensures
        r[0] == band(layers@, 0),
        r[1] == band(layers@, 1),
        r[2] == band(layers@, 2),
        r[3] == band(layers@, 3),
{
    let mut up: i32 = 0;
    let mut right: i32 = 0;
    let mut bottom: i32 = 0;
    let mut left: i32 = 0;
    let mut i: usize = 0;
    while i < layers.len()
        invariant
            i <= layers@.len(),
            up == band(layers@.take(i as int), 0),
            right == band(layers@.take(i as int), 1),
            bottom == band(layers@.take(i as int), 2),
            left == band(layers@.take(i as int), 3),
        decreases layers@.len() - i,
    {
        let l = &layers[i];
        let t = thickness(l);
        assert(layers@.take(i + 1).drop_last() == layers@.take(i as int));
        match l.position {
            Position::Up => if t > up {
                up = t;
            },
            Position::Right => if t > right {
                right = t;
            },
            Position::Bottom => if t > bottom {
                bottom = t;
            },
            Position::Left => if t > left {
                left = t;
            },
            Position::Center => {},
        }
        i = i + 1;
    }
    assert(layers@.take(layers@.len() as int) == layers@);
    [up, right, bottom, left]
}

/// Every layer fits in the band of its side, and no band is negative.
pub proof fn lemma_every_layer_fits_its_band(layers: Seq<TextLayer>, k: int, side: int)
    requires
        0 <= k < layers.len(),
        side_of(layers[k].position) == side,
    ensures
        band(layers, side) >= layer_thickness(layers[k]),
        band(layers, side) >= 0,
    decreases layers.len(),
{
    lemma_band_is_not_negative(layers, side);
    if k < layers.len() - 1 {
        lemma_every_layer_fits_its_band(layers.drop_last(), k, side);
    }
}

/// A side's band is no wider than it must be: it is the thickness of one of the layers
/// on that side, or zero when no layer reaches out further.
pub proof fn lemma_band_is_one_layers_thickness(layers: Seq<TextLayer>, side: int)
    ensures
        band(layers, side) == 0 || exists|k: int|
            0 <= k < layers.len() && side_of(#[trigger] layers[k].position) == side
                && band(layers, side) == layer_thickness(layers[k]),
    decreases layers.len(),
{
    if layers.len() > 0 {
        let rest = layers.drop_last();
        lemma_band_is_one_layers_thickness(rest, side);
        let l = layers.last();
        if side_of(l.position) == side && layer_thickness(l) > band(rest, side) {
            assert(layers[layers.len() - 1] == l);
        } else if band(rest, side) != 0 {
            let k = choose|k: int|
                0 <= k < rest.len() && side_of(#[trigger] rest[k].position) == side && band(
                    rest,
                    side,
                ) == layer_thickness(rest[k]);
            assert(layers[k] == rest[k]);
        }
    }
}

proof fn lemma_band_is_not_negative(layers: Seq<TextLayer>, side: int)
    ensures
        band(layers, side) >= 0,
    decreases layers.len(),
{
    if layers.len() > 0 {
        lemma_band_is_not_negative(layers.drop_last(), side);
    }
}

/// The margin grown by the text bands, one band per side.
pub open spec fn margin_with_bands(m: Margin, layers: Seq<TextLayer>) -> (int, int, int, int) {
    (
        m.top + band(layers, 0),
        m.right + band(layers, 1),
        m.bottom + band(layers, 2),
        m.left + band(layers, 3),
    )
}

pub open spec fn fits_i32(v: int) -> bool {
    i32::MIN <= v <= i32::MAX
}

/// Widens the border on each side by the band its text layers need, as
/// [`Margin::include_text_thickness`] does once per side.
pub fn include_text_layers(margin: &mut Margin, layers: &Vec<TextLayer>)
    requires
        ({
            let (t, r, b, l) = margin_with_bands(*old(margin), layers@);
            fits_i32(t) && fits_i32(r) && fits_i32(b) && fits_i32(l)
        }),
    ensures
        margin_with_bands(*old(margin), layers@) == (
            final(margin).top as int,
            final(margin).right as int,
            final(margin).bottom as int,
            final(margin).left as int,
        ),
{
    let bands = text_bands(layers);
    margin.include_text_thickness(Position::Up, bands[0]);
    margin.include_text_thickness(Position::Right, bands[1]);
    margin.include_text_thickness(Position::Bottom, bands[2]);
    margin.include_text_thickness(Position::Left, bands[3]);
}

/// The photo's box on the canvas and the canvas size, in pixels.
#[derive(Debug, Clone, Copy, PartialEq, Eq)]
pub struct PhotoBox {
    pub x: i32,
    pub y: i32,
    pub width: i32,
    pub height: i32,
    pub canvas_width: i32,
    pub canvas_height: i32,
}

/// Where a layer goes along the photo's width, by its alignment.
pub open spec fn aligned_x(l: TextLayer, b: PhotoBox) -> int {
    match l.align {
        TextAlign::Left => b.x as int,
        TextAlign::Center => b.x + half(b.width - l.width),
        TextAlign::Right => b.x + b.width - l.width,
    }
}

/// Where a layer goes along the photo's height, by its alignment.
pub open spec fn aligned_y(l: TextLayer, b: PhotoBox) -> int {
    match l.align {
        TextAlign::Left => b.y as int,
        TextAlign::Center => b.y + half(b.height - l.height),
        TextAlign::Right => b.y + b.height - l.height,
    }
}

/// The top-left corner of a text layer: centred in the band between the photo and the
/// canvas edge on its side, and aligned along the photo; a centred layer sits over the
/// middle of the photo's height.
pub open spec fn spec_text_layer_position(l: TextLayer, b: PhotoBox) -> (int, int) {
    match l.position {
        Position::Up => (aligned_x(l, b), half(b.y - l.height)),
        Position::Bottom => (
            aligned_x(l, b),
            b.y + b.height + half(b.canvas_height - b.y - b.height - l.height),
        ),
        Position::Left => (half(b.x - l.width), aligned_y(l, b)),
        Position::Right => (
            b.x + b.width + half(b.canvas_width - b.x - b.width - l.width),
            aligned_y(l, b),
        ),
        Position::Center => (aligned_x(l, b), b.y + half(b.height - l.height)),
    }
}

/// Every intermediate value of the alignment along the width fits in an `i32`.
pub open spec fn aligned_x_fits(l: TextLayer, b: PhotoBox) -> bool {
    match l.align {
        TextAlign::Left => true,
        TextAlign::Center => fits_i32(b.width - l.width) && fits_i32(
            b.x + half(b.width - l.width),
        ),
        TextAlign::Right => fits_i32(b.x + b.width) && fits_i32(b.x + b.width - l.width),
    }
}

/// Every intermediate value of the alignment along the height fits in an `i32`.
pub open spec fn aligned_y_fits(l: TextLayer, b: PhotoBox) -> bool {
    match l.align {
        TextAlign::Left => true,
        TextAlign::Center => fits_i32(b.height - l.height) && fits_i32(
            b.y + half(b.height - l.height),
        ),
        TextAlign::Right => fits_i32(b.y + b.height) && fits_i32(b.y + b.height - l.height),
    }
}

/// Every intermediate value of the placement fits in an `i32`.
pub open spec fn layer_position_fits(l: TextLayer, b: PhotoBox) -> bool {
    match l.position {
        Position::Up => aligned_x_fits(l, b) && fits_i32(b.y - l.height),
        Position::Bottom => {
            &&& aligned_x_fits(l, b)
            &&& fits_i32(b.y + b.height)
            &&& fits_i32(b.canvas_height - b.y)
            &&& fits_i32(b.canvas_height - b.y - b.height)
            &&& fits_i32(b.canvas_height - b.y - b.height - l.height)
            &&& fits_i32(b.y + b.height + half(b.canvas_height - b.y - b.height - l.height))
        },
        Position::Left => fits_i32(b.x - l.width) && aligned_y_fits(l, b),
        Position::Right => {
            &&& fits_i32(b.x + b.width)
            &&& fits_i32(b.canvas_width - b.x)
            &&& fits_i32(b.canvas_width - b.x - b.width)
            &&& fits_i32(b.canvas_width - b.x - b.width - l.width)
            &&& fits_i32(b.x + b.width + half(b.canvas_width - b.x - b.width - l.width))
            &&& aligned_y_fits(l, b)
        },
        Position::Center => {
            &&& aligned_x_fits(l, b)
            &&& fits_i32(b.height - l.height)
            &&& fits_i32(b.y + half(b.height - l.height))
        },
    }
}

fn layer_x(l: &TextLayer, b: &PhotoBox) -> (x: i32)
    requires
        aligned_x_fits(*l, *b),
    ensures
        x == aligned_x(*l, *b),
{
    match l.align {
        TextAlign::Left => b.x,
        TextAlign::Center => b.x + (b.width - l.width) / 2,
        TextAlign::Right => b.x + b.width - l.width,
    }
}

fn layer_y(l: &TextLayer, b: &PhotoBox) -> (y: i32)
    requires
        aligned_y_fits(*l, *b),
    ensures
        y == aligned_y(*l, *b),
{
    match l.align {
        TextAlign::Left => b.y,
        TextAlign::Center => b.y + (b.height - l.height) / 2,
        TextAlign::Right => b.y + b.height - l.height,
    }
}

/// Where a text layer is composited onto the canvas.
pub fn text_layer_position(layer: &TextLayer, photo: &PhotoBox) -> (r: (i32, i32))
    requires
        layer_position_fits(*layer, *photo),
    ensures
        (r.0 as int, r.1 as int) == spec_text_layer_position(*layer, *photo),
{
    let b = photo;
    match layer.position {
        Position::Up => (layer_x(layer, b), (b.y - layer.height) / 2),
        Position::Bottom => (
            layer_x(layer, b),
            b.y + b.height + (b.canvas_height - b.y - b.height - layer.height) / 2,
        ),
        Position::Left => ((b.x - layer.width) / 2, layer_y(layer, b)),
        Position::Right => (
            b.x + b.width + (b.canvas_width - b.x - b.width - layer.width) / 2,
            layer_y(layer, b),
        ),
        Position::Center => (layer_x(layer, b), b.y + (b.height - layer.height) / 2),
    }
}

/// Every text layer is aligned along the photo: a layer above, below or over the photo
/// along its width, a layer beside it along its height. Left alignment puts the layer's
/// edge on the photo's first edge, right alignment on its last edge, and a centred layer
/// has as much room before it as after it, give or take one pixel (rounding toward zero).
pub proof fn lemma_layers_are_aligned_along_the_photo(l: TextLayer, b: PhotoBox)
    ensures
        ({
            let (x, y) = spec_text_layer_position(l, b);
            let across = l.position == Position::Left || l.position == Position::Right;
            &&& !across && l.align == TextAlign::Left ==> x == b.x
            &&& !across && l.align == TextAlign::Right ==> x + l.width == b.x + b.width
            &&& !across && l.align == TextAlign::Center && l.width <= b.width ==> {
                let before = x - b.x;
                let after = (b.x + b.width) - (x + l.width);
                0 <= before <= after <= before + 1
            }
            &&& across && l.align == TextAlign::Left ==> y == b.y
            &&& across && l.align == TextAlign::Right ==> y + l.height == b.y + b.height
            &&& across && l.align == TextAlign::Center && l.height <= b.height ==> {
                let before = y - b.y;
                let after = (b.y + b.height) - (y + l.height);
                0 <= before <= after <= before + 1
            }
            &&& l.position == Position::Center && l.height <= b.height ==> {
                let before = y - b.y;
                let after = (b.y + b.height) - (y + l.height);
                0 <= before <= after <= before + 1
            }
        }),
{
}

/// A text layer beside the photo that fits in the band on its side lies inside that
/// band, with equal room on both sides of it, give or take one pixel.
pub proof fn lemma_side_layer_sits_in_its_band(l: TextLayer, b: PhotoBox)
    requires
        l.position == Position::Left || l.position == Position::Right,
        0 <= l.width,
        l.position == Position::Left ==> l.width <= b.x,
        l.position == Position::Right ==> l.width <= b.canvas_width - b.x - b.width,
    ensures
        ({
            let (x, y) = spec_text_layer_position(l, b);
            let (band_start, band_end) = if l.position == Position::Left {
                (0int, b.x as int)
            } else {
                (b.x + b.width, b.canvas_width as int)
            };
            let before = x - band_start;
            let after = band_end - (x + l.width);
            0 <= before <= after <= before + 1
        }),
{
}

/// A text layer below the photo that fits in the band under it lies inside that band,
/// with equal room above and below it, give or take one pixel; a centre-aligned one is
/// likewise centred under the photo when it is no wider.
pub proof fn lemma_bottom_layer_sits_in_its_band(l: TextLayer, b: PhotoBox)
    requires
        l.position == Position::Bottom,
        0 <= l.height <= b.canvas_height - b.y - b.height,
    ensures
        ({
            let (x, y) = spec_text_layer_position(l, b);
            let above = y - (b.y + b.height);
            let below = b.canvas_height - (y + l.height);
            &&& 0 <= above <= below <= above + 1
            &&& (l.align == TextAlign::Center && 0 <= l.width <= b.width) ==> {
                let left = x - b.x;
                let right = (b.x + b.width) - (x + l.width);
                0 <= left <= right <= left + 1
            }
        }),
{
}

/// A text layer above the photo that fits in the band over it lies inside that band,
/// with equal room above and below it, give or take one pixel.
pub proof fn lemma_top_layer_sits_in_its_band(l: TextLayer, b: PhotoBox)
    requires
        l.position == Position::Up,
        0 <= l.height <= b.y,
    ensures
        ({
            let (x, y) = spec_text_layer_position(l, b);
            &&& 0 <= y
            &&& y <= b.y - (y + l.height) <= y + 1
        }),
{
}

/// The name of an exported photo: its stem (`_` when it has none usable) followed by
/// `_watermark.jpg`.
pub open spec fn spec_watermark_file_name(stem: Option<Seq<char>>) -> Seq<char> {
    match stem {
        Some(s) => s + "_watermark.jpg"@,
        None => "_"@ + "_watermark.jpg"@,
    }
}

/// The file name an exported photo is written under in the output folder.
pub fn watermark_file_name(stem: Option<&str>) -> (r: String)
    ensures
        r@ == spec_watermark_file_name(
            match stem {
                Some(s) => Some(s@),
                None => None,
            },
        ),
{
    let mut name = match stem {
        Some(s) => s.to_owned(),
        None => "_".to_owned(),
    };
    let suffix = chars_of("_watermark.jpg");
    let ghost start = name@;
    let mut k: usize = 0;
    while k < suffix.len()
        invariant
            k <= suffix@.len(),
            suffix@ == "_watermark.jpg"@,
            name@ == start + suffix@.take(k as int),
        decreases suffix@.len() - k,
    {
        name.push(suffix[k]);
        k = k + 1;
        assert(name@ == start + suffix@.take(k as int));
    }
    assert(suffix@.take(suffix@.len() as int) == suffix@);
    name
}

} // verus!
