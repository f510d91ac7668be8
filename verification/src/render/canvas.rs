//! The border around the photo on the canvas.

use vstd::prelude::*;

use crate::Position;

verus! {

/// The border between the photo and each edge of the canvas, in pixels.
#[derive(Debug, Copy, Clone, PartialEq, Eq)]
pub struct Margin {
    pub top: i32,
    pub right: i32,
    pub bottom: i32,
    pub left: i32,
}

/// `m` with the side that faces `position` grown by `thickness`; a centred group
/// grows no side.
pub open spec fn with_text_band(m: Margin, position: Position, thickness: int) -> (int, int, int, int) {
    match position {
        Position::Up => (m.top + thickness, m.right as int, m.bottom as int, m.left as int),
        Position::Right => (m.top as int, m.right + thickness, m.bottom as int, m.left as int),
        Position::Bottom => (m.top as int, m.right as int, m.bottom + thickness, m.left as int),
        Position::Left => (m.top as int, m.right as int, m.bottom as int, m.left + thickness),
        Position::Center => (m.top as int, m.right as int, m.bottom as int, m.left as int),
    }
}

/// The grown side still fits in an `i32`.
pub open spec fn text_band_fits(m: Margin, position: Position, thickness: int) -> bool {
    let (t, r, b, l) = with_text_band(m, position, thickness);
    i32::MIN <= t <= i32::MAX && i32::MIN <= r <= i32::MAX && i32::MIN <= b <= i32::MAX
        && i32::MIN <= l <= i32::MAX
}

impl Margin {
    /// Widens the border on the side of a text group by the group's thickness. Groups on
    /// the same side share one band, so callers pass the thickest group of each side
    /// once rather than adding every group.
    pub fn include_text_thickness(&mut self, position: Position, thickness: i32)
        requires
            text_band_fits(*old(self), position, thickness as int),
        ensures
            with_text_band(*old(self), position, thickness as int) == (
                final(self).top as int,
                final(self).right as int,
                final(self).bottom as int,
                final(self).left as int,
            ),
    {
        match position {
            Position::Up => self.top = self.top + thickness,
            Position::Right => self.right = self.right + thickness,
            Position::Bottom => self.bottom = self.bottom + thickness,
            Position::Left => self.left = self.left + thickness,
            Position::Center => {},
        }
    }
}

} // verus!
