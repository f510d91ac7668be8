//! Local application preferences that are not part of any preset.

use vstd::prelude::*;

verus! {

/// The three choices for light and dark appearance.
#[derive(Debug, Clone, Copy, PartialEq, Eq)]
pub enum AppearanceMode {
    /// Follow the system appearance, and change with it.
    System,
    Light,
    Dark,
}

/// The preview background that preferences fall back to.
pub const DEFAULT_PREVIEW_BACKGROUND: [u8; 3] = [0x9a, 0xa7, 0xb1];

/// The preview background used when the preferences file names none.
pub fn default_preview_background() -> (rgb: [u8; 3])
    ensures
        rgb@ == seq![0x9au8, 0xa7u8, 0xb1u8],
{
    [0x9a, 0xa7, 0xb1]
}

} // verus!
