//! The quarter-turn rotation shared by photo and video output.

use vstd::prelude::*;

verus! {

/// A clockwise rotation in quarter turns.
#[derive(Debug, Clone, Copy, PartialEq, Eq)]
pub enum Rotation {
    Unrotated,
    Clockwise90,
    HalfTurn,
    CounterClockwise90,
}

impl Default for Rotation {
    /// No rotation.
    fn default() -> (r: Rotation)
        ensures
            r == Rotation::Unrotated,
    {
        Rotation::Unrotated
    }
}

/// The number of clockwise quarter turns a rotation stands for.
pub open spec fn quarter_turns(r: Rotation) -> int {
    match r {
        Rotation::Unrotated => 0,
        Rotation::Clockwise90 => 1,
        Rotation::HalfTurn => 2,
        Rotation::CounterClockwise90 => 3,
    }
}

/// The rotation that is `n` clockwise quarter turns (taken modulo four).
pub open spec fn rotation_of_turns(n: int) -> Rotation {
    let m = n % 4;
    if m == 0 {
        Rotation::Unrotated
    } else if m == 1 {
        Rotation::Clockwise90
    } else if m == 2 {
        Rotation::HalfTurn
    } else {
        Rotation::CounterClockwise90
    }
}

/// The FFmpeg video filter that applies a rotation, if it needs one.
pub open spec fn spec_ffmpeg_filter(r: Rotation) -> Option<Seq<char>> {
    match r {
        Rotation::Unrotated => Option::None,
        Rotation::Clockwise90 => Option::Some("transpose=clock"@),
        Rotation::HalfTurn => Option::Some("hflip,vflip"@),
        Rotation::CounterClockwise90 => Option::Some("transpose=cclock"@),
    }
}

impl Rotation {
    /// The rotation one further quarter turn clockwise.
    pub fn next(self) -> (r: Self)
        ensures
            r == rotation_of_turns(quarter_turns(self) + 1),
    {
        match self {
            Rotation::Unrotated => Rotation::Clockwise90,
            Rotation::Clockwise90 => Rotation::HalfTurn,
            Rotation::HalfTurn => Rotation::CounterClockwise90,
            Rotation::CounterClockwise90 => Rotation::Unrotated,
        }
    }

    /// The rotation in degrees.
    pub fn degrees(self) -> (d: u16)
        ensures
            d == 90 * quarter_turns(self),
    {
        match self {
            Rotation::Unrotated => 0,
            Rotation::Clockwise90 => 90,
            Rotation::HalfTurn => 180,
            Rotation::CounterClockwise90 => 270,
        }
    }

    /// The FFmpeg filter that performs this rotation; `None` for no rotation.
    pub fn ffmpeg_filter(self) -> (f: Option<&'static str>)
        ensures
            match (f, spec_ffmpeg_filter(self)) {
                (Option::None, Option::None) => true,
                (Option::Some(s), Option::Some(t)) => s@ == t,
                _ => false,
            },
    {
        match self {
            Rotation::Unrotated => Option::None,
            Rotation::Clockwise90 => Option::Some("transpose=clock"),
            Rotation::HalfTurn => Option::Some("hflip,vflip"),
            Rotation::CounterClockwise90 => Option::Some("transpose=cclock"),
        }
    }
}

/// Four quarter turns bring every rotation back to itself.
pub proof fn lemma_four_turns_are_identity(r: Rotation)
    ensures
        rotation_of_turns(quarter_turns(rotation_of_turns(quarter_turns(rotation_of_turns(
            quarter_turns(rotation_of_turns(quarter_turns(r) + 1)) + 1,
        )) + 1)) + 1) == r,
{
}

/// Turning once more adds ninety degrees, wrapping at a full circle.
pub proof fn lemma_next_adds_ninety_degrees(r: Rotation)
    ensures
        90 * quarter_turns(rotation_of_turns(quarter_turns(r) + 1)) == (90 * quarter_turns(r) + 90)
            % 360,
{
}

/// Only the identity rotation needs no FFmpeg filter.
pub proof fn lemma_filter_absent_only_without_rotation(r: Rotation)
    ensures
        spec_ffmpeg_filter(r) is None <==> r == Rotation::Unrotated,
{
}

} // verus!
