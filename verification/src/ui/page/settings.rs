//! The settings page: which colour theme is selected, and the preview size preference.

use vstd::prelude::*;

use crate::chars::str_eq;
use crate::sorting::views;
use crate::ui::image::PREVIEW_DEFAULT_MAX_EDGE;

verus! {

/// Light or dark colour themes.
#[derive(Debug, Clone, Copy, PartialEq, Eq)]
pub enum ThemeMode {
    Light,
    Dark,
}

/// The smallest preview edge the preferences may ask for.
pub const PREVIEW_MAX_EDGE_MIN: i32 = 160;

/// The largest preview edge the preferences may ask for.
pub const PREVIEW_MAX_EDGE_MAX: i32 = 8192;

/// The preview edge used when the preferences ask for none, or for one out of range.
pub const DEFAULT_PREVIEW_MAX_EDGE: i32 = PREVIEW_DEFAULT_MAX_EDGE;

/// The preview edge that a preference stands for.
pub fn preview_max_edge_from_settings(max_edge: Option<i32>) -> (edge: i32)
    ensures
        edge == match max_edge {
            Some(e) => if PREVIEW_MAX_EDGE_MIN <= e <= PREVIEW_MAX_EDGE_MAX {
                e
            } else {
                DEFAULT_PREVIEW_MAX_EDGE
            },
            None => DEFAULT_PREVIEW_MAX_EDGE,
        },
{
    match max_edge {
        Some(e) => if PREVIEW_MAX_EDGE_MIN <= e && e <= PREVIEW_MAX_EDGE_MAX {
            e
        } else {
            DEFAULT_PREVIEW_MAX_EDGE
        },
        None => DEFAULT_PREVIEW_MAX_EDGE,
    }
}

/// The position of the first name equal to `target`.
pub open spec fn first_index(names: Seq<Seq<char>>, target: Seq<char>) -> Option<int> {
    if exists|k: int| 0 <= k < names.len() && names[k] == target {
        Some(
            choose|k: int|
                0 <= k < names.len() && names[k] == target && forall|j: int|
                    0 <= j < k ==> names[j] != target,
        )
    } else {
        None
    }
}

/// The theme a mode falls back to.
pub open spec fn default_theme_name(mode: ThemeMode) -> Seq<char> {
    if mode == ThemeMode::Dark {
        "Default Dark"@
    } else {
        "Default Light"@
    }
}

/// Which theme is selected when none is saved: the default theme of the mode, else the
/// first one, else none.
pub open spec fn spec_default_theme_index(names: Seq<Seq<char>>, mode: ThemeMode) -> Option<int> {
    match first_index(names, default_theme_name(mode)) {
        Some(k) => Some(k),
        None => if names.len() == 0 {
            None
        } else {
            Some(0)
        },
    }
}

/// Which theme is selected: the saved one when the list holds it, else as
/// [`spec_default_theme_index`].
pub open spec fn spec_theme_index(names: Seq<Seq<char>>, mode: ThemeMode, saved: Option<Seq<char>>) -> Option<
    int,
> {
    match saved {
        Some(s) => match first_index(names, s) {
            Some(k) => Some(k),
            None => spec_default_theme_index(names, mode),
        },
        None => spec_default_theme_index(names, mode),
    }
}

/// The first position of `target` in `names`.
pub fn position_of(names: &[String], target: &str) -> (r: Option<usize>)
    ensures
        match (r, first_index(views(names@), target@)) {
            (Some(i), Some(k)) => i == k,
            (None, None) => true,
            _ => false,
        },
{
    let ghost v = views(names@);
    let mut i: usize = 0;
    while i < names.len()
        invariant
            i <= names@.len(),
            v == views(names@),
            forall|j: int| 0 <= j < i ==> v[j] != target@,
        decreases names@.len() - i,
    {
        if str_eq(names[i].as_str(), target) {
            assert(v[i as int] == target@);
            let ghost k = choose|k: int|
                0 <= k < v.len() && v[k] == target@ && forall|j: int| 0 <= j < k ==> v[j] != target@;
            assert(k == i) by {
                if k < i {
                    assert(v[k] != target@);
                }
                if k > i {
                    assert(v[i as int] != target@);
                }
            }
            return Some(i);
        }
        i = i + 1;
    }
    None
}

/// Which theme is selected when none is saved.
pub fn default_theme_index(names: &[String], mode: ThemeMode) -> (r: Option<usize>)
    ensures
        match (r, spec_default_theme_index(views(names@), mode)) {
            (Some(i), Some(k)) => i == k,
            (None, None) => true,
            _ => false,
        },
{
    let fallback = match mode {
        ThemeMode::Dark => "Default Dark",
        ThemeMode::Light => "Default Light",
    };
    match position_of(names, fallback) {
        Some(i) => Some(i),
        None => if names.len() == 0 {
            None
        } else {
            Some(0)
        },
    }
}

/// The characters of a saved theme name.
pub open spec fn saved_view(saved: Option<&str>) -> Option<Seq<char>> {
    match saved {
        Some(s) => Some(s@),
        None => None,
    }
}

/// Which theme is selected: the saved one when the list holds it, else the default
/// theme of the mode, else the first theme.
pub fn theme_index(names: &[String], mode: ThemeMode, saved_name: Option<&str>) -> (r: Option<usize>)
    ensures
        match (r, spec_theme_index(views(names@), mode, saved_view(saved_name))) {
            (Some(i), Some(k)) => i == k,
            (None, None) => true,
            _ => false,
        },
{
    if let Some(saved) = saved_name {
        if let Some(index) = position_of(names, saved) {
            return Some(index);
        }
    }
    default_theme_index(names, mode)
}

/// A saved theme that the list holds is the one selected.
pub proof fn lemma_saved_theme_wins(names: Seq<Seq<char>>, mode: ThemeMode, saved: Seq<char>, k: int)
    requires
        0 <= k < names.len(),
        names[k] == saved,
        forall|j: int| 0 <= j < k ==> names[j] != saved,
    ensures
        spec_theme_index(names, mode, Some(saved)) == Some(k),
{
    let c = choose|c: int|
        0 <= c < names.len() && names[c] == saved && forall|j: int| 0 <= j < c ==> names[j] != saved;
    assert(c == k) by {
        if c < k {
            assert(names[c] != saved);
        }
        if c > k {
            assert(names[k] != saved);
        }
    }
}

} // verus!
