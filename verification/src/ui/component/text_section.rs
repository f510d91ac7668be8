//! Labels of the text group editor, which follow the side the group sits on.

use vstd::prelude::*;

use crate::process::text::{TextAlign, TextDirection};
use crate::Position;

verus! {

/// The alignment choices for a group on the side `position`: groups on the left or right
/// run top to bottom, so their alignments read as top and bottom.
pub open spec fn spec_group_aligns(position: Position) -> Seq<(Seq<char>, TextAlign)> {
    match position {
        Position::Left | Position::Right => seq![
            ("上侧"@, TextAlign::Left),
            ("居中"@, TextAlign::Center),
            ("下侧"@, TextAlign::Right),
        ],
        _ => seq![
            ("左侧"@, TextAlign::Left),
            ("居中"@, TextAlign::Center),
            ("右侧"@, TextAlign::Right),
        ],
    }
}

/// The alignment choices, with their labels, for a group on the side `position`.
pub fn group_aligns(position: Position) -> (r: Vec<(&'static str, TextAlign)>)
    ensures
        r@.len() == 3,
        forall|i: int|
            0 <= i < 3 ==> (#[trigger] r@[i]).0@ == spec_group_aligns(position)[i].0 && r@[i].1
                == spec_group_aligns(position)[i].1,
{
    match position {
        Position::Left | Position::Right => vec![
            ("上侧", TextAlign::Left),
            ("居中", TextAlign::Center),
            ("下侧", TextAlign::Right),
        ],
        _ => vec![("左侧", TextAlign::Left), ("居中", TextAlign::Center), ("右侧", TextAlign::Right)],
    }
}

/// The label of a group position.
pub open spec fn spec_position_label(position: Position) -> Seq<char> {
    match position {
        Position::Center => "居中"@,
        Position::Up => "靠上"@,
        Position::Bottom => "靠下"@,
        Position::Left => "靠左"@,
        Position::Right => "靠右"@,
    }
}

/// The label of a group position.
pub fn position_label(position: Position) -> (s: &'static str)
    ensures
        s@ == spec_position_label(position),
{
    match position {
        Position::Center => "居中",
        Position::Up => "靠上",
        Position::Bottom => "靠下",
        Position::Left => "靠左",
        Position::Right => "靠右",
    }
}

/// The label of an alignment inside a group on the side `position`.
pub open spec fn spec_align_label(align: TextAlign, position: Position) -> Seq<char> {
    let vertical = position == Position::Left || position == Position::Right;
    match align {
        TextAlign::Left => if vertical {
            "上侧"@
        } else {
            "左侧"@
        },
        TextAlign::Right => if vertical {
            "下侧"@
        } else {
            "右侧"@
        },
        TextAlign::Center => "居中"@,
    }
}

/// The label of an alignment inside a group on the side `position`.
pub fn align_label(align: TextAlign, position: Position) -> (s: &'static str)
    ensures
        s@ == spec_align_label(align, position),
{
    let vertical = match position {
        Position::Left | Position::Right => true,
        _ => false,
    };
    match align {
        TextAlign::Left => if vertical {
            "上侧"
        } else {
            "左侧"
        },
        TextAlign::Right => if vertical {
            "下侧"
        } else {
            "右侧"
        },
        TextAlign::Center => "居中",
    }
}

/// The label of a writing direction.
pub fn direction_label(direction: TextDirection) -> (s: &'static str)
    ensures
        direction == TextDirection::Horizontal ==> s@ == "横排"@,
        direction == TextDirection::Vertical ==> s@ == "竖排"@,
{
    match direction {
        TextDirection::Horizontal => "横排",
        TextDirection::Vertical => "竖排",
    }
}

/// The label of each alignment choice is the label that the alignment gets on that side.
pub proof fn lemma_choices_carry_their_labels(position: Position, i: int)
    requires
        0 <= i < 3,
    ensures
        spec_group_aligns(position)[i].0 == spec_align_label(
            spec_group_aligns(position)[i].1,
            position,
        ),
{
}

} // verus!
