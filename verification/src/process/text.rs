//! Text lines of a watermark and how they are set, and the templates they are filled
//! from.

use vstd::prelude::*;

use crate::process::font::{
    rendered_from, render_template_with, resolve_logo_key_name, spec_resolve_logo_key_name,
    text_of, ExifTexts, KeyTable,
};

verus! {

/// Horizontal alignment of a text line.
#[derive(Debug, Clone, Copy, PartialEq, Eq, Default)]
pub enum TextAlign {
    Left,
    #[default]
    Center,
    Right,
}

/// Writing direction of a text line.
#[derive(Debug, Clone, Copy, PartialEq, Eq, Default)]
pub enum TextDirection {
    #[default]
    Horizontal,
    Vertical,
}

/// A watermark text template with its placeholders filled in: the same grammar as a
/// caption's, with `{Logo}` for the maker and `{型号}` for the model's short form.
pub open spec fn spec_render_exif_template(template: Seq<char>, exif: ExifTexts) -> Seq<char> {
    rendered_from(template, 0, exif, KeyTable::LogoAndModel)
}

/// The text the placeholder name `key` stands for in a watermark text, if it is a known
/// name and the photo has the field.
pub fn resolve_exif_key_name(key: &str, exif: &ExifTexts) -> (r: Option<String>)
    ensures
        text_of(r) == spec_resolve_logo_key_name(key@, *exif),
{
    resolve_logo_key_name(key, exif)
}

/// Fills in the placeholders of a watermark text template from a photo's EXIF fields.
pub fn render_exif_template(template: &str, exif: &ExifTexts) -> (r: String)
    ensures
        r@ == spec_render_exif_template(template@, *exif),
{
    render_template_with(template, exif, KeyTable::LogoAndModel)
}

} // verus!
