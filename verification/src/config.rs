//! Preset and preference storage that records a format version in each preset file.
//!
//! A preset is a snapshot of the look of a watermark. It is stored as
//! `<config dir>/lumen-frame/presets/<name>.toml`, one file per preset, so that users
//! can edit, version or share it directly.

use vstd::prelude::*;

use crate::persistence::presets::{
    self, listed_names, spec_file_name_for, PresetFileEntry, PresetNameError,
};
use crate::sorting::{is_sorted, views};

verus! {

/// The newest preset file format this version reads.
pub const PRESET_FORMAT_VERSION: u32 = 1;

/// The three choices for light and dark appearance.
#[derive(Debug, Clone, Copy, PartialEq, Eq, Default)]
pub enum AppearanceMode {
    /// Follow the system appearance, and change with it.
    #[default]
    System,
    Light,
    Dark,
}

/// Turns a user-given preset name into a safe file name (see
/// [`presets::file_name_for`], which this format shares).
pub fn file_name_for(name: &str) -> (r: Result<String, PresetNameError>)
    ensures
        match r {
            Ok(f) => spec_file_name_for(name@) == Ok::<Seq<char>, PresetNameError>(f@),
            Err(e) => spec_file_name_for(name@) == Err::<Seq<char>, PresetNameError>(e),
        },
{
    presets::file_name_for(name)
}

/// The names of the saved presets in a directory, sorted (see [`presets::list`]).
pub fn list_presets(entries: &Vec<PresetFileEntry>) -> (r: Vec<String>)
    ensures
        is_sorted(views(r@)),
        views(r@).to_multiset() == listed_names(entries@).to_multiset(),
{
    presets::list(entries)
}

/// The file that deleting the preset `name` removes from the preset directory. A file
/// that is already gone counts as deleted.
pub fn delete_preset(name: &str) -> (r: Result<String, PresetNameError>)
    ensures
        match r {
            Ok(f) => spec_file_name_for(name@) == Ok::<Seq<char>, PresetNameError>(f@),
            Err(e) => spec_file_name_for(name@) == Err::<Seq<char>, PresetNameError>(e),
        },
{
    file_name_for(name)
}

/// Whether a preset file of format `version` can be read: files from newer versions
/// are refused.
pub fn is_supported_format(version: u32) -> (b: bool)
    ensures
        b == (version <= PRESET_FORMAT_VERSION),
{
    version <= PRESET_FORMAT_VERSION
}

} // verus!
