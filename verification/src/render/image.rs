//! Where the photo goes on the canvas.

use vstd::prelude::*;

use crate::render::canvas::Margin;
use crate::Position;

verus! {

/// Half of `a`, rounded toward zero as Rust's integer division rounds.
pub open spec fn half(a: int) -> int {
    if a >= 0 {
        a / 2
    } else {
        -((-a) / 2)
    }
}

/// The top-left corner of the photo on the canvas: centred in the box inside the
/// border, or against the border on the side that `position` names.
pub open spec fn spec_cal_coordinates(
    margin: Margin,
    canvas_w: int,
    canvas_h: int,
    img_w: int,
    img_h: int,
    position: Position,
) -> (int, int) {
    let inner_w = canvas_w - margin.left - margin.right;
    let inner_h = canvas_h - margin.top - margin.bottom;
    let center_x = margin.left + half(inner_w - img_w);
    let center_y = margin.top + half(inner_h - img_h);
    match position {
        Position::Center => (center_x, center_y),
        Position::Up => (center_x, margin.top as int),
        Position::Bottom => (center_x, canvas_h - margin.bottom - img_h),
        Position::Left => (margin.left as int, center_y),
        Position::Right => (canvas_w - margin.right - img_w, center_y),
    }
}

/// Every intermediate value of the placement fits in an `i32`.
pub open spec fn coordinates_fit(margin: Margin, canvas_w: int, canvas_h: int, img_w: int, img_h: int) -> bool {
    let fits = |v: int| i32::MIN <= v <= i32::MAX;
    &&& fits(canvas_w - margin.left)
    &&& fits(canvas_w - margin.left - margin.right)
    &&& fits(canvas_w - margin.left - margin.right - img_w)
    &&& fits(margin.left + half(canvas_w - margin.left - margin.right - img_w))
    &&& fits(canvas_h - margin.top)
    &&& fits(canvas_h - margin.top - margin.bottom)
    &&& fits(canvas_h - margin.top - margin.bottom - img_h)
    &&& fits(margin.top + half(canvas_h - margin.top - margin.bottom - img_h))
    &&& fits(canvas_h - margin.bottom)
    &&& fits(canvas_h - margin.bottom - img_h)
    &&& fits(canvas_w - margin.right)
    &&& fits(canvas_w - margin.right - img_w)
}

/// Places the photo on the canvas.
///
/// The watermark parameters enter only through the photo's position, which is what
/// this computation reads of them.
pub fn cal_coordinates(
    margin: &Margin,
    canvas_w: i32,
    canvas_h: i32,
    img_w: i32,
    img_h: i32,
    position: Position,
) -> (r: (i32, i32))
    requires
        coordinates_fit(*margin, canvas_w as int, canvas_h as int, img_w as int, img_h as int),
    ensures
        (r.0 as int, r.1 as int) == spec_cal_coordinates(
            *margin,
            canvas_w as int,
            canvas_h as int,
            img_w as int,
            img_h as int,
            position,
        ),
{
    let inner_w = canvas_w - margin.left - margin.right;
    let inner_h = canvas_h - margin.top - margin.bottom;
    let center_x = margin.left + (inner_w - img_w) / 2;
    let center_y = margin.top + (inner_h - img_h) / 2;
    match position {
        Position::Center => (center_x, center_y),
        Position::Up => (center_x, margin.top),
        Position::Bottom => (center_x, canvas_h - margin.bottom - img_h),
        Position::Left => (margin.left, center_y),
        Position::Right => (canvas_w - margin.right - img_w, center_y),
    }
}

/// A centred photo that fits inside the border has equal room on both sides of it,
/// give or take one pixel.
pub proof fn lemma_centred_photo_is_balanced(
    margin: Margin,
    canvas_w: int,
    canvas_h: int,
    img_w: int,
    img_h: int,
)
    requires
        img_w <= canvas_w - margin.left - margin.right,
        img_h <= canvas_h - margin.top - margin.bottom,
    ensures
        ({
            let (x, y) = spec_cal_coordinates(margin, canvas_w, canvas_h, img_w, img_h, Position::Center);
            let left_gap = x - margin.left;
            let right_gap = (canvas_w - margin.right) - (x + img_w);
            let top_gap = y - margin.top;
            let bottom_gap = (canvas_h - margin.bottom) - (y + img_h);
            &&& 0 <= left_gap <= right_gap <= left_gap + 1
            &&& 0 <= top_gap <= bottom_gap <= top_gap + 1
        }),
{
}

} // verus!
