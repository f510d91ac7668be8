//! Caption templates: `{name}` placeholders filled from a photo's EXIF fields.
//!
//! A placeholder is `{`, one or more characters that are neither `{` nor `}`, and `}`.
//! Placeholders are found left to right without overlapping; a known name whose field
//! the photo has is replaced by the field's text, anything else is kept as written.

use vstd::prelude::*;

use crate::chars::{chars_of, str_eq, string_of};
use crate::decimal::{decimal_text, push_decimal_text};

verus! {

/// Which names a template's placeholders use: the caption names (`{品牌}`, `{机型}`) or
/// the watermark text names (`{Logo}`, `{型号}`); the other names are shared.
#[derive(Debug, Clone, Copy, PartialEq, Eq)]
pub enum KeyTable {
    BrandAndBody,
    LogoAndModel,
}

/// The EXIF fields of one photo as a caption shows them. The date is already written
/// in the caption's time format, and fractions and decimals as the caption writes them.
#[derive(Debug, Clone, Default)]
pub struct ExifTexts {
    pub created_time: Option<String>,
    pub make: Option<String>,
    pub model: Option<String>,
    /// The model as the watermark's `{型号}` shows it, in the maker's short form.
    pub model_caption: Option<String>,
    pub exposure_time: Option<String>,
    pub f_number: Option<String>,
    pub isospeed_ratings: Option<u32>,
    pub exposure_bias_value: Option<String>,
    pub focal_length: Option<String>,
    pub white_balance_mode: Option<u16>,
    pub focal_length_in35mm_film: Option<u16>,
    pub lens_make: Option<String>,
    pub lens_model: Option<String>,
}

pub open spec fn text_of(field: Option<String>) -> Option<Seq<char>> {
    match field {
        Some(t) => Some(t@),
        None => None,
    }
}

pub open spec fn number_of(field: Option<nat>) -> Option<Seq<char>> {
    match field {
        Some(n) => Some(decimal_text(n)),
        None => None,
    }
}

pub open spec fn nat_of_u32(field: Option<u32>) -> Option<nat> {
    match field {
        Some(n) => Some(n as nat),
        None => None,
    }
}

pub open spec fn nat_of_u16(field: Option<u16>) -> Option<nat> {
    match field {
        Some(n) => Some(n as nat),
        None => None,
    }
}

/// The text of the names both tables share.
pub open spec fn shared_key_name(key: Seq<char>, exif: ExifTexts) -> Option<Seq<char>> {
    if key == "快门"@ {
        text_of(exif.exposure_time)
    } else if key == "光圈"@ {
        text_of(exif.f_number)
    } else if key == "ISO"@ {
        number_of(nat_of_u32(exif.isospeed_ratings))
    } else if key == "曝光补偿"@ {
        text_of(exif.exposure_bias_value)
    } else if key == "实际焦距"@ {
        text_of(exif.focal_length)
    } else if key == "白平衡"@ {
        number_of(nat_of_u16(exif.white_balance_mode))
    } else if key == "等效焦距"@ {
        number_of(nat_of_u16(exif.focal_length_in35mm_film))
    } else if key == "镜头生产商"@ {
        text_of(exif.lens_make)
    } else if key == "镜头型号"@ {
        text_of(exif.lens_model)
    } else {
        None
    }
}

/// The text a caption placeholder name stands for, if the name is known and the photo
/// has the field.
pub open spec fn spec_resolve_exif_key_name(key: Seq<char>, exif: ExifTexts) -> Option<Seq<char>> {
    if key == "拍摄日期"@ {
        text_of(exif.created_time)
    } else if key == "品牌"@ {
        text_of(exif.make)
    } else if key == "机型"@ {
        text_of(exif.model)
    } else {
        shared_key_name(key, exif)
    }
}

/// The text a watermark text placeholder name stands for, if the name is known and the
/// photo has the field.
pub open spec fn spec_resolve_logo_key_name(key: Seq<char>, exif: ExifTexts) -> Option<Seq<char>> {
    if key == "拍摄日期"@ {
        text_of(exif.created_time)
    } else if key == "Logo"@ {
        text_of(exif.make)
    } else if key == "型号"@ {
        text_of(exif.model_caption)
    } else {
        shared_key_name(key, exif)
    }
}

/// The text a placeholder name stands for in `table`.
pub open spec fn resolve_in(table: KeyTable, key: Seq<char>, exif: ExifTexts) -> Option<Seq<char>> {
    match table {
        KeyTable::BrandAndBody => spec_resolve_exif_key_name(key, exif),
        KeyTable::LogoAndModel => spec_resolve_logo_key_name(key, exif),
    }
}

pub open spec fn is_brace(c: char) -> bool {
    c == '{' || c == '}'
}

/// The position of the first brace in `s` at or after `i`, or the length of `s`.
pub open spec fn first_brace_from(s: Seq<char>, i: int) -> int
    decreases s.len() - i,
{
    if i < 0 || i >= s.len() {
        s.len() as int
    } else if is_brace(s[i]) {
        i
    } else {
        first_brace_from(s, i + 1)
    }
}

/// A placeholder starts at `i` and its closing brace is at `j`.
pub open spec fn placeholder_at(s: Seq<char>, i: int, j: int) -> bool {
    &&& 0 <= i < s.len()
    &&& s[i] == '{'
    &&& j == first_brace_from(s, i + 1)
    &&& j < s.len()
    &&& s[j] == '}'
    &&& j >= i + 2
}

/// What the placeholder from `i` to `j` is replaced by.
pub open spec fn replacement(s: Seq<char>, i: int, j: int, exif: ExifTexts, table: KeyTable) -> Seq<char> {
    match resolve_in(table, s.subrange(i + 1, j), exif) {
        Some(v) => v,
        None => s.subrange(i, j + 1),
    }
}

/// The rendering of `s` from position `i` on.
pub open spec fn rendered_from(s: Seq<char>, i: int, exif: ExifTexts, table: KeyTable) -> Seq<char>
    decreases s.len() - i,
{
    if i < 0 || i >= s.len() {
        Seq::empty()
    } else {
        let j = first_brace_from(s, i + 1);
        if placeholder_at(s, i, j) {
            replacement(s, i, j, exif, table) + rendered_from(s, j + 1, exif, table)
        } else {
            seq![s[i]] + rendered_from(s, i + 1, exif, table)
        }
    }
}

/// A caption template with its placeholders filled in.
pub open spec fn spec_render_exif_template(template: Seq<char>, exif: ExifTexts) -> Seq<char> {
    rendered_from(template, 0, exif, KeyTable::BrandAndBody)
}

fn field_text(field: &Option<String>) -> (r: Option<String>)
    ensures
        text_of(r) == text_of(*field),
{
    match field {
        Some(t) => Some(t.clone()),
        None => None,
    }
}

fn field_number(field: Option<u64>) -> (r: Option<String>)
    ensures
        text_of(r) == number_of(
            match field {
                Some(n) => Some(n as nat),
                None => None,
            },
        ),
{
    match field {
        Some(n) => {
            let mut digits: Vec<char> = Vec::new();
            push_decimal_text(&mut digits, n);
            assert(digits@ == decimal_text(n as nat));
            Some(string_of(digits.as_slice()))
        },
        None => None,
    }
}

fn widen_u32(field: Option<u32>) -> (r: Option<u64>)
    ensures
        match r {
            Some(n) => nat_of_u32(field) == Some(n as nat),
            None => field is None,
        },
{
    match field {
        Some(n) => Some(n as u64),
        None => None,
    }
}

fn widen_u16(field: Option<u16>) -> (r: Option<u64>)
    ensures
        match r {
            Some(n) => nat_of_u16(field) == Some(n as nat),
            None => field is None,
        },
{
    match field {
        Some(n) => Some(n as u64),
        None => None,
    }
}

fn shared_key(key: &str, exif: &ExifTexts) -> (r: Option<String>)
    ensures
        text_of(r) == shared_key_name(key@, *exif),
{
    if str_eq(key, "快门") {
        field_text(&exif.exposure_time)
    } else if str_eq(key, "光圈") {
        field_text(&exif.f_number)
    } else if str_eq(key, "ISO") {
        field_number(widen_u32(exif.isospeed_ratings))
    } else if str_eq(key, "曝光补偿") {
        field_text(&exif.exposure_bias_value)
    } else if str_eq(key, "实际焦距") {
        field_text(&exif.focal_length)
    } else if str_eq(key, "白平衡") {
        field_number(widen_u16(exif.white_balance_mode))
    } else if str_eq(key, "等效焦距") {
        field_number(widen_u16(exif.focal_length_in35mm_film))
    } else if str_eq(key, "镜头生产商") {
        field_text(&exif.lens_make)
    } else if str_eq(key, "镜头型号") {
        field_text(&exif.lens_model)
    } else {
        None
    }
}

/// The text the caption placeholder name `key` stands for, if it is a known name and the
/// photo has the field.
pub fn resolve_exif_key_name(key: &str, exif: &ExifTexts) -> (r: Option<String>)
    ensures
        text_of(r) == spec_resolve_exif_key_name(key@, *exif),
{
    if str_eq(key, "拍摄日期") {
        field_text(&exif.created_time)
    } else if str_eq(key, "品牌") {
        field_text(&exif.make)
    } else if str_eq(key, "机型") {
        field_text(&exif.model)
    } else {
        shared_key(key, exif)
    }
}

/// The text the watermark text placeholder name `key` stands for, if it is a known name
/// and the photo has the field.
pub fn resolve_logo_key_name(key: &str, exif: &ExifTexts) -> (r: Option<String>)
    ensures
        text_of(r) == spec_resolve_logo_key_name(key@, *exif),
{
    if str_eq(key, "拍摄日期") {
        field_text(&exif.created_time)
    } else if str_eq(key, "Logo") {
        field_text(&exif.make)
    } else if str_eq(key, "型号") {
        field_text(&exif.model_caption)
    } else {
        shared_key(key, exif)
    }
}

fn resolve_with(table: KeyTable, key: &str, exif: &ExifTexts) -> (r: Option<String>)
    ensures
        text_of(r) == resolve_in(table, key@, *exif),
{
    match table {
        KeyTable::BrandAndBody => resolve_exif_key_name(key, exif),
        KeyTable::LogoAndModel => resolve_logo_key_name(key, exif),
    }
}

/// The position of the first brace in `v` at or after `from`, or its length.
fn first_brace(v: &Vec<char>, from: usize) -> (j: usize)
    requires
        from <= v@.len(),
    ensures
        j == first_brace_from(v@, from as int),
        from <= j <= v@.len(),
{
    let mut j = from;
    while j < v.len() && !(v[j] == '{' || v[j] == '}')
        invariant
            from <= j <= v@.len(),
            first_brace_from(v@, from as int) == first_brace_from(v@, j as int),
        decreases v@.len() - j,
    {
        j = j + 1;
    }
    j
}

/// The characters of `v` from `a` up to `b`.
fn chars_between(v: &Vec<char>, a: usize, b: usize) -> (r: Vec<char>)
    requires
        a <= b <= v@.len(),
    ensures
        r@ == v@.subrange(a as int, b as int),
{
    let mut r: Vec<char> = Vec::new();
    let mut k = a;
    while k < b
        invariant
            a <= k <= b <= v@.len(),
            r@ == v@.subrange(a as int, k as int),
        decreases b - k,
    {
        r.push(v[k]);
        k = k + 1;
        assert(r@ == v@.subrange(a as int, k as int));
    }
    r
}

/// Appends the characters of `more` to `out`.
fn push_all(out: &mut Vec<char>, more: &Vec<char>)
    ensures
        final(out)@ == old(out)@ + more@,
{
    let mut k: usize = 0;
    while k < more.len()
        invariant
            k <= more@.len(),
            out@ == old(out)@ + more@.take(k as int),
        decreases more@.len() - k,
    {
        out.push(more[k]);
        k = k + 1;
        assert(out@ == old(out)@ + more@.take(k as int));
    }
    assert(more@.take(more@.len() as int) == more@);
}

/// Fills in the placeholders of a template, named as `table` names them, from a photo's
/// EXIF fields.
pub fn render_template_with(template: &str, exif: &ExifTexts, table: KeyTable) -> (r: String)
    ensures
        r@ == rendered_from(template@, 0, *exif, table),
{
    let v = chars_of(template);
    let n = v.len();
    let mut out: Vec<char> = Vec::new();
    let mut i: usize = 0;
    while i < n
        invariant
            n == v@.len(),
            v@ == template@,
            i <= n,
            out@ + rendered_from(v@, i as int, *exif, table) == rendered_from(v@, 0, *exif, table),
        decreases n - i,
    {
        let j = first_brace(&v, i + 1);
        if v[i] == '{' && j < n && v[j] == '}' && j >= i + 2 {
            assert(placeholder_at(v@, i as int, j as int));
            let key = string_of(chars_between(&v, i + 1, j).as_slice());
            let piece = match resolve_with(table, key.as_str(), exif) {
                Some(text) => chars_of(text.as_str()),
                None => chars_between(&v, i, j + 1),
            };
            assert(piece@ == replacement(v@, i as int, j as int, *exif, table));
            let ghost before = out@;
            push_all(&mut out, &piece);
            assert(out@ + rendered_from(v@, j + 1, *exif, table) == before + rendered_from(
                v@,
                i as int,
                *exif,
                table,
            ));
            i = j + 1;
        } else {
            assert(!placeholder_at(v@, i as int, j as int));
            let ghost before = out@;
            out.push(v[i]);
            assert(out@ + rendered_from(v@, i + 1, *exif, table) == before + rendered_from(
                v@,
                i as int,
                *exif,
                table,
            ));
            i = i + 1;
        }
    }
    string_of(out.as_slice())
}

/// Fills in the placeholders of a caption template from a photo's EXIF fields.
pub fn render_exif_template(template: &str, exif: &ExifTexts) -> (r: String)
    ensures
        r@ == spec_render_exif_template(template@, *exif),
{
    render_template_with(template, exif, KeyTable::BrandAndBody)
}

proof fn lemma_kept_from(s: Seq<char>, i: int, exif: ExifTexts, table: KeyTable)
    requires
        0 <= i <= s.len(),
        forall|a: int, b: int|
            #![trigger placeholder_at(s, a, b)]
            placeholder_at(s, a, b) ==> resolve_in(table, s.subrange(a + 1, b), exif) is None,
    ensures
        rendered_from(s, i, exif, table) == s.subrange(i, s.len() as int),
    decreases s.len() - i,
{
    if i < s.len() {
        let j = first_brace_from(s, i + 1);
        if placeholder_at(s, i, j) {
            lemma_kept_from(s, j + 1, exif, table);
            assert(s.subrange(i, j + 1) + s.subrange(j + 1, s.len() as int) == s.subrange(
                i,
                s.len() as int,
            ));
        } else {
            lemma_kept_from(s, i + 1, exif, table);
            assert(seq![s[i]] + s.subrange(i + 1, s.len() as int) == s.subrange(
                i,
                s.len() as int,
            ));
        }
    }
}

/// A template in which no placeholder stands for a field the photo has, because its
/// name is unknown or the field is missing, comes out exactly as written, whichever
/// names it uses.
pub proof fn lemma_unfilled_template_is_unchanged(
    template: Seq<char>,
    exif: ExifTexts,
    table: KeyTable,
)
    requires
        forall|a: int, b: int|
            #![trigger placeholder_at(template, a, b)]
            placeholder_at(template, a, b) ==> resolve_in(table, template.subrange(a + 1, b), exif)
                is None,
    ensures
        rendered_from(template, 0, exif, table) == template,
{
    lemma_kept_from(template, 0, exif, table);
    assert(template.subrange(0, template.len() as int) == template);
}

/// Text without an opening brace has no placeholder and comes out as written.
pub proof fn lemma_text_without_placeholders_is_unchanged(
    template: Seq<char>,
    exif: ExifTexts,
    table: KeyTable,
)
    requires
        !template.contains('{'),
    ensures
        rendered_from(template, 0, exif, table) == template,
{
    assert forall|a: int, b: int| placeholder_at(template, a, b) implies resolve_in(
        table,
        template.subrange(a + 1, b),
        exif,
    ) is None by {
        assert(template[a] == '{');
        assert(template.contains('{'));
    }
    lemma_unfilled_template_is_unchanged(template, exif, table);
}

/// Every placeholder name of a caption stands for its own EXIF field: the date, the
/// maker, the body, the shutter, the aperture, the ISO (in decimal), the exposure bias,
/// the focal length, the white balance (in decimal), the 35 mm focal length (in
/// decimal), the lens maker and the lens model; any other name stands for nothing.
pub proof fn lemma_caption_names_stand_for_their_fields(exif: ExifTexts, key: Seq<char>)
    ensures
        spec_resolve_exif_key_name("拍摄日期"@, exif) == text_of(exif.created_time),
        spec_resolve_exif_key_name("品牌"@, exif) == text_of(exif.make),
        spec_resolve_exif_key_name("机型"@, exif) == text_of(exif.model),
        spec_resolve_exif_key_name("快门"@, exif) == text_of(exif.exposure_time),
        spec_resolve_exif_key_name("光圈"@, exif) == text_of(exif.f_number),
        spec_resolve_exif_key_name("ISO"@, exif) == match exif.isospeed_ratings {
            Some(v) => Some(decimal_text(v as nat)),
            None => None::<Seq<char>>,
        },
        spec_resolve_exif_key_name("曝光补偿"@, exif) == text_of(exif.exposure_bias_value),
        spec_resolve_exif_key_name("实际焦距"@, exif) == text_of(exif.focal_length),
        spec_resolve_exif_key_name("白平衡"@, exif) == match exif.white_balance_mode {
            Some(v) => Some(decimal_text(v as nat)),
            None => None::<Seq<char>>,
        },
        spec_resolve_exif_key_name("等效焦距"@, exif) == match exif.focal_length_in35mm_film {
            Some(v) => Some(decimal_text(v as nat)),
            None => None::<Seq<char>>,
        },
        spec_resolve_exif_key_name("镜头生产商"@, exif) == text_of(exif.lens_make),
        spec_resolve_exif_key_name("镜头型号"@, exif) == text_of(exif.lens_model),
        !seq!["拍摄日期"@, "品牌"@, "机型"@, "快门"@, "光圈"@, "ISO"@, "曝光补偿"@, "实际焦距"@,
            "白平衡"@, "等效焦距"@, "镜头生产商"@, "镜头型号"@].contains(key)
            ==> spec_resolve_exif_key_name(key, exif) is None,
{
    reveal_strlit("拍摄日期");
    reveal_strlit("品牌");
    reveal_strlit("机型");
    reveal_strlit("Logo");
    reveal_strlit("型号");
    reveal_strlit("快门");
    reveal_strlit("光圈");
    reveal_strlit("ISO");
    reveal_strlit("曝光补偿");
    reveal_strlit("实际焦距");
    reveal_strlit("白平衡");
    reveal_strlit("等效焦距");
    reveal_strlit("镜头生产商");
    reveal_strlit("镜头型号");
    assert("拍摄日期"@.len() == 4 && "拍摄日期"@[0] == '拍');
    assert("品牌"@.len() == 2 && "品牌"@[0] == '品');
    assert("机型"@.len() == 2 && "机型"@[0] == '机');
    assert("Logo"@.len() == 4 && "Logo"@[0] == 'L');
    assert("型号"@.len() == 2 && "型号"@[0] == '型');
    assert("快门"@.len() == 2 && "快门"@[0] == '快');
    assert("光圈"@.len() == 2 && "光圈"@[0] == '光');
    assert("ISO"@.len() == 3 && "ISO"@[0] == 'I');
    assert("曝光补偿"@.len() == 4 && "曝光补偿"@[0] == '曝');
    assert("实际焦距"@.len() == 4 && "实际焦距"@[0] == '实');
    assert("白平衡"@.len() == 3 && "白平衡"@[0] == '白');
    assert("等效焦距"@.len() == 4 && "等效焦距"@[0] == '等');
    assert("镜头生产商"@.len() == 5 && "镜头生产商"@[0] == '镜');
    assert("镜头型号"@.len() == 4 && "镜头型号"@[0] == '镜');
    assert("品牌"@ != "拍摄日期"@ && "机型"@ != "拍摄日期"@ && "机型"@ != "品牌"@) by {
        assert("品牌"@[0] != "拍摄日期"@[0] && "机型"@[0] != "拍摄日期"@[0] && "机型"@[0] != "品牌"@[0]);
    }
    let names = seq!["拍摄日期"@, "品牌"@, "机型"@, "快门"@, "光圈"@, "ISO"@, "曝光补偿"@, "实际焦距"@,
        "白平衡"@, "等效焦距"@, "镜头生产商"@, "镜头型号"@];
    if !names.contains(key) {
        assert(key != names[0] && key != names[1] && key != names[2] && key != names[3]);
        assert(key != names[4] && key != names[5] && key != names[6] && key != names[7]);
        assert(key != names[8] && key != names[9] && key != names[10] && key != names[11]);
    }
}

/// Every placeholder name of a watermark text stands for its own EXIF field: as in a
/// caption, but `Logo` is the maker and `型号` the model's short form; any other name
/// stands for nothing.
pub proof fn lemma_watermark_names_stand_for_their_fields(exif: ExifTexts, key: Seq<char>)
    ensures
        spec_resolve_logo_key_name("拍摄日期"@, exif) == text_of(exif.created_time),
        spec_resolve_logo_key_name("Logo"@, exif) == text_of(exif.make),
        spec_resolve_logo_key_name("型号"@, exif) == text_of(exif.model_caption),
        spec_resolve_logo_key_name("快门"@, exif) == text_of(exif.exposure_time),
        spec_resolve_logo_key_name("光圈"@, exif) == text_of(exif.f_number),
        spec_resolve_logo_key_name("ISO"@, exif) == match exif.isospeed_ratings {
            Some(v) => Some(decimal_text(v as nat)),
            None => None::<Seq<char>>,
        },
        spec_resolve_logo_key_name("曝光补偿"@, exif) == text_of(exif.exposure_bias_value),
        spec_resolve_logo_key_name("实际焦距"@, exif) == text_of(exif.focal_length),
        spec_resolve_logo_key_name("白平衡"@, exif) == match exif.white_balance_mode {
            Some(v) => Some(decimal_text(v as nat)),
            None => None::<Seq<char>>,
        },
        spec_resolve_logo_key_name("等效焦距"@, exif) == match exif.focal_length_in35mm_film {
            Some(v) => Some(decimal_text(v as nat)),
            None => None::<Seq<char>>,
        },
        spec_resolve_logo_key_name("镜头生产商"@, exif) == text_of(exif.lens_make),
        spec_resolve_logo_key_name("镜头型号"@, exif) == text_of(exif.lens_model),
        !seq!["拍摄日期"@, "Logo"@, "型号"@, "快门"@, "光圈"@, "ISO"@, "曝光补偿"@, "实际焦距"@,
            "白平衡"@, "等效焦距"@, "镜头生产商"@, "镜头型号"@].contains(key)
            ==> spec_resolve_logo_key_name(key, exif) is None,
{
    reveal_strlit("拍摄日期");
    reveal_strlit("品牌");
    reveal_strlit("机型");
    reveal_strlit("Logo");
    reveal_strlit("型号");
    reveal_strlit("快门");
    reveal_strlit("光圈");
    reveal_strlit("ISO");
    reveal_strlit("曝光补偿");
    reveal_strlit("实际焦距");
    reveal_strlit("白平衡");
    reveal_strlit("等效焦距");
    reveal_strlit("镜头生产商");
    reveal_strlit("镜头型号");
    assert("拍摄日期"@.len() == 4 && "拍摄日期"@[0] == '拍');
    assert("品牌"@.len() == 2 && "品牌"@[0] == '品');
    assert("机型"@.len() == 2 && "机型"@[0] == '机');
    assert("Logo"@.len() == 4 && "Logo"@[0] == 'L');
    assert("型号"@.len() == 2 && "型号"@[0] == '型');
    assert("快门"@.len() == 2 && "快门"@[0] == '快');
    assert("光圈"@.len() == 2 && "光圈"@[0] == '光');
    assert("ISO"@.len() == 3 && "ISO"@[0] == 'I');
    assert("曝光补偿"@.len() == 4 && "曝光补偿"@[0] == '曝');
    assert("实际焦距"@.len() == 4 && "实际焦距"@[0] == '实');
    assert("白平衡"@.len() == 3 && "白平衡"@[0] == '白');
    assert("等效焦距"@.len() == 4 && "等效焦距"@[0] == '等');
    assert("镜头生产商"@.len() == 5 && "镜头生产商"@[0] == '镜');
    assert("镜头型号"@.len() == 4 && "镜头型号"@[0] == '镜');
    assert("Logo"@ != "拍摄日期"@ && "型号"@ != "拍摄日期"@ && "型号"@ != "Logo"@) by {
        assert("Logo"@[0] != "拍摄日期"@[0] && "型号"@[0] != "拍摄日期"@[0] && "型号"@[0] != "Logo"@[0]);
    }
    let names = seq!["拍摄日期"@, "Logo"@, "型号"@, "快门"@, "光圈"@, "ISO"@, "曝光补偿"@, "实际焦距"@,
        "白平衡"@, "等效焦距"@, "镜头生产商"@, "镜头型号"@];
    if !names.contains(key) {
        assert(key != names[0] && key != names[1] && key != names[2] && key != names[3]);
        assert(key != names[4] && key != names[5] && key != names[6] && key != names[7]);
        assert(key != names[8] && key != names[9] && key != names[10] && key != names[11]);
    }
}

proof fn lemma_no_brace_until_close(s: Seq<char>, k: Seq<char>, i: int)
    requires
        s == seq!['{'] + k + seq!['}'],
        forall|m: int| 0 <= m < k.len() ==> !is_brace(#[trigger] k[m]),
        1 <= i <= k.len() + 1,
    ensures
        first_brace_from(s, i) == k.len() + 1,
    decreases k.len() + 1 - i,
{
    if i <= k.len() {
        assert(s[i] == k[i - 1]);
        lemma_no_brace_until_close(s, k, i + 1);
    } else {
        assert(s[i] == '}');
    }
}

/// A template that is a single placeholder `{name}` comes out as the text the name stands
/// for in `table`, or unchanged when it stands for nothing.
pub proof fn lemma_single_placeholder_is_replaced(key: Seq<char>, exif: ExifTexts, table: KeyTable)
    requires
        key.len() > 0,
        forall|m: int| 0 <= m < key.len() ==> !is_brace(#[trigger] key[m]),
    ensures
        ({
            let template = seq!['{'] + key + seq!['}'];
            rendered_from(template, 0, exif, table) == match resolve_in(table, key, exif) {
                Some(text) => text,
                None => template,
            }
        }),
{
    let s = seq!['{'] + key + seq!['}'];
    let j = key.len() + 1int;
    lemma_no_brace_until_close(s, key, 1);
    assert(s[0] == '{');
    assert(s[j] == '}');
    assert(placeholder_at(s, 0, j));
    assert(s.subrange(1, j) =~= key);
    assert(s.subrange(0, j + 1) =~= s);
    assert(rendered_from(s, j + 1, exif, table) == Seq::<char>::empty());
    assert(rendered_from(s, 0, exif, table) == replacement(s, 0, j, exif, table) + rendered_from(
        s,
        j + 1,
        exif,
        table,
    ));
}

} // verus!
