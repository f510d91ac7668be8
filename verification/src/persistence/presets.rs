//! Named watermark presets: the built-in catalogue, the file names that presets are
//! stored under, and the list of names that a preset directory holds.
//!
//! Reading and writing the TOML files is the caller's part; this module decides which
//! file a name maps to, which names may be saved or deleted, and how a directory
//! listing turns into the sorted list of preset names.

use vstd::prelude::*;

use crate::chars::{
    chars_of, class_pred, control, is_control, lemma_trim_chars_from_input, lemma_trim_is_infix,
    str_eq, string_of, trim, trim_class, trim_white_space, TrimClass,
};
use crate::sorting::{is_sorted, sort_strings, views};

verus! {

/// Why a preset name cannot become a file name.
#[derive(Debug, Clone, Copy, PartialEq, Eq)]
pub enum PresetNameError {
    /// Nothing is left of the name once surrounding whitespace is removed.
    Empty,
    /// Only full stops and spaces would be left of the file name.
    OnlyPunctuation,
}

/// Characters that no file system accepts in a file name, or that would leave the
/// preset directory.
pub open spec fn is_reserved(c: char) -> bool {
    c == '/' || c == '\\' || c == ':' || c == '*' || c == '?' || c == '"' || c == '<' || c
        == '>' || c == '|' || c == '\0'
}

/// The character a name character is stored as.
pub open spec fn sanitize_char(c: char) -> char {
    if is_reserved(c) || is_control(c) {
        '_'
    } else {
        c
    }
}

/// The extension every preset file carries.
pub open spec fn toml_extension() -> Seq<char> {
    seq!['.', 't', 'o', 'm', 'l']
}

/// The file a preset name is stored in, or why there is none.
///
/// Surrounding whitespace is removed, reserved and control characters become `_`,
/// surrounding full stops and spaces are removed, and `.toml` is appended.
pub open spec fn spec_file_name_for(name: Seq<char>) -> Result<Seq<char>, PresetNameError> {
    let trimmed = trim_white_space(name);
    if trimmed.len() == 0 {
        Err(PresetNameError::Empty)
    } else {
        let stem = trim(
            trimmed.map_values(|c: char| sanitize_char(c)),
            class_pred(TrimClass::DotOrSpace),
        );
        if stem.len() == 0 {
            Err(PresetNameError::OnlyPunctuation)
        } else {
            Ok(stem + toml_extension())
        }
    }
}

fn sanitized(c: char) -> (r: char)
    ensures
        r == sanitize_char(c),
{
    if c == '/' || c == '\\' || c == ':' || c == '*' || c == '?' || c == '"' || c == '<' || c
        == '>' || c == '|' || c == '\0' || control(c) {
        '_'
    } else {
        c
    }
}

/// Turns a user-given preset name into a safe file name.
///
/// Preset names are typed freely and may hold path separators, `..` or characters
/// that file systems refuse; they are cleaned up before anything is written, so that
/// a mistyped name never writes outside the preset directory.
pub fn file_name_for(name: &str) -> (r: Result<String, PresetNameError>)
    ensures
        match r {
            Ok(f) => spec_file_name_for(name@) == Ok::<Seq<char>, PresetNameError>(f@),
            Err(e) => spec_file_name_for(name@) == Err::<Seq<char>, PresetNameError>(e),
        },
{
    let all = chars_of(name);
    let trimmed = trim_class(all.as_slice(), TrimClass::WhiteSpace);
    if trimmed.len() == 0 {
        return Err(PresetNameError::Empty);
    }
    let mut mapped: Vec<char> = Vec::new();
    let mut i: usize = 0;
    while i < trimmed.len()
        invariant
            i <= trimmed@.len(),
            mapped@ == trimmed@.take(i as int).map_values(|c: char| sanitize_char(c)),
        decreases trimmed@.len() - i,
    {
        mapped.push(sanitized(trimmed[i]));
        i = i + 1;
        assert(mapped@ == trimmed@.take(i as int).map_values(|c: char| sanitize_char(c)));
    }
    assert(trimmed@.take(trimmed@.len() as int) == trimmed@);
    let mut stem = trim_class(mapped.as_slice(), TrimClass::DotOrSpace);
    if stem.len() == 0 {
        return Err(PresetNameError::OnlyPunctuation);
    }
    let ghost s = stem@;
    stem.push('.');
    stem.push('t');
    stem.push('o');
    stem.push('m');
    stem.push('l');
    assert(stem@ == s + toml_extension());
    Ok(string_of(stem.as_slice()))
}

/// A preset file name never leaves the preset directory: it holds no reserved or control
/// character (so no path separator), its stem is not empty and neither starts nor ends
/// with a full stop or a space (so it is neither `.` nor `..`), and it ends in `.toml`.
pub proof fn lemma_file_name_is_safe(name: Seq<char>)
    ensures
        spec_file_name_for(name) matches Ok(f) ==> {
            &&& f.len() >= 6
            &&& f.subrange(f.len() - 5, f.len() as int) == toml_extension()
            &&& forall|i: int| 0 <= i < f.len() ==> !is_reserved(#[trigger] f[i]) && !is_control(f[i])
            &&& f[0] != '.' && f[0] != ' '
            &&& f[f.len() - 6] != '.' && f[f.len() - 6] != ' '
        },
{
    let trimmed = trim_white_space(name);
    if trimmed.len() > 0 {
        let mapped = trimmed.map_values(|c: char| sanitize_char(c));
        let p = class_pred(TrimClass::DotOrSpace);
        let stem = trim(mapped, p);
        if stem.len() > 0 {
            let f = stem + toml_extension();
            lemma_trim_is_infix(mapped, p);
            assert(f.subrange(f.len() - 5, f.len() as int) == toml_extension());
            assert forall|i: int| 0 <= i < f.len() implies !is_reserved(#[trigger] f[i])
                && !is_control(f[i]) by {
                if i < stem.len() {
                    lemma_trim_chars_from_input(mapped, p, i);
                    let k = choose|k: int| 0 <= k < mapped.len() && mapped[k] == #[trigger] stem[i];
                    assert(mapped[k] == sanitize_char(trimmed[k]));
                } else {
                    assert(f[i] == toml_extension()[i - stem.len()]);
                }
            }
            assert(f[0] == stem[0]);
            assert(f[f.len() - 6] == stem.last());
        }
    }
}

/// Why a preset cannot be saved or deleted under a name.
#[derive(Debug, Clone, Copy, PartialEq, Eq)]
pub enum PresetError {
    /// The name belongs to a preset that ships with the application.
    Builtin,
    /// The name gives no usable file name.
    Name(PresetNameError),
}

/// The names of the presets that ship with the application.
pub open spec fn builtin_names() -> Seq<Seq<char>> {
    seq!["16_9"@, "基础样式"@, "文字在上"@, "白色边框"@, "纯色背景_文字在下"@]
}

/// Whether `name` is exactly the name of a built-in preset.
pub fn is_builtin(name: &str) -> (r: bool)
    ensures
        r == builtin_names().contains(name@),
{
    let a = str_eq(name, "16_9");
    let b = str_eq(name, "基础样式");
    let c = str_eq(name, "文字在上");
    let d = str_eq(name, "白色边框");
    let e = str_eq(name, "纯色背景_文字在下");
    proof {
        let names = builtin_names();
        if names.contains(name@) {
            let k = choose|k: int| 0 <= k < names.len() && names[k] == name@;
            assert(k == 0 || k == 1 || k == 2 || k == 3 || k == 4);
        }
        if a {
            assert(names[0] == name@);
        }
        if b {
            assert(names[1] == name@);
        }
        if c {
            assert(names[2] == name@);
        }
        if d {
            assert(names[3] == name@);
        }
        if e {
            assert(names[4] == name@);
        }
    }
    a || b || c || d || e
}

/// The names of the built-in presets, in the order the catalog shows them.
pub fn builtin_preset_names() -> (r: Vec<String>)
    ensures
        views(r@) == builtin_names(),
{
    let r = vec![
        "16_9".to_owned(),
        "基础样式".to_owned(),
        "文字在上".to_owned(),
        "白色边框".to_owned(),
        "纯色背景_文字在下".to_owned(),
    ];
    assert(views(r@) == builtin_names());
    r
}

/// The saved presets that the catalog shows after the built-in ones: those of `listed`
/// that do not reuse a built-in name and whose file could be read (`readable`).
pub open spec fn user_catalog(listed: Seq<Seq<char>>, readable: Seq<bool>) -> Seq<Seq<char>>
    decreases listed.len(),
{
    if listed.len() == 0 || readable.len() == 0 {
        Seq::empty()
    } else {
        let before = user_catalog(listed.drop_last(), readable.drop_last());
        if !builtin_names().contains(listed.last()) && readable.last() {
            before.push(listed.last())
        } else {
            before
        }
    }
}

/// The preset names the preset panel offers: the built-in presets first, then the saved
/// presets in the order they were listed, skipping any that reuse a built-in name or
/// could not be read. `readable[i]` tells whether the file of `listed[i]` could be read.
pub fn catalog_names(listed: &Vec<String>, readable: &Vec<bool>) -> (r: Vec<String>)
    requires
        listed@.len() == readable@.len(),
    ensures
        views(r@) == builtin_names() + user_catalog(views(listed@), readable@),
{
    let mut names = builtin_preset_names();
    let mut i: usize = 0;
    while i < listed.len()
        invariant
            i <= listed@.len(),
            listed@.len() == readable@.len(),
            views(names@) == builtin_names() + user_catalog(
                views(listed@.take(i as int)),
                readable@.take(i as int),
            ),
        decreases listed@.len() - i,
    {
        let name = &listed[i];
        assert(views(listed@.take(i + 1)).drop_last() == views(listed@.take(i as int)));
        assert(readable@.take(i + 1).drop_last() == readable@.take(i as int));
        assert(views(listed@.take(i + 1)).last() == listed@[i as int]@);
        assert(readable@.take(i + 1).last() == readable@[i as int]);
        if !is_builtin(name.as_str()) && readable[i] {
            let copy = name.clone();
            assert(copy@ == listed@[i as int]@);
            let ghost before = names@;
            names.push(copy);
            assert(views(names@) == views(before).push(copy@));
            assert(views(names@) == builtin_names() + user_catalog(
                views(listed@.take(i + 1)),
                readable@.take(i + 1),
            ));
        }
        i = i + 1;
    }
    assert(listed@.take(listed@.len() as int) == listed@);
    assert(readable@.take(readable@.len() as int) == readable@);
    names
}

/// The catalog shows the built-in presets first, and no saved preset after them takes a
/// built-in name.
pub proof fn lemma_builtins_lead_the_catalog(listed: Seq<Seq<char>>, readable: Seq<bool>)
    ensures
        (builtin_names() + user_catalog(listed, readable)).take(builtin_names().len() as int)
            == builtin_names(),
        forall|k: int|
            0 <= k < user_catalog(listed, readable).len() ==> !builtin_names().contains(
                #[trigger] user_catalog(listed, readable)[k],
            ),
    decreases listed.len(),
{
    assert((builtin_names() + user_catalog(listed, readable)).take(builtin_names().len() as int)
        == builtin_names());
    if listed.len() > 0 && readable.len() > 0 {
        lemma_builtins_lead_the_catalog(listed.drop_last(), readable.drop_last());
    }
}

/// Where a preset is saved: the file under the preset directory, and the name
/// recorded inside it.
#[derive(Debug, PartialEq, Eq)]
pub struct PresetTarget {
    pub file_name: String,
    pub name: String,
}

/// Where saving a preset under `name` writes it, or why it may not be saved.
///
/// A name that is a built-in preset's once trimmed may not be reused.
pub fn save_target(name: &str) -> (r: Result<PresetTarget, PresetError>)
    ensures
        builtin_names().contains(trim_white_space(name@)) ==> r == Err::<
            PresetTarget,
            PresetError,
        >(PresetError::Builtin),
        !builtin_names().contains(trim_white_space(name@)) ==> match (
            r,
            spec_file_name_for(name@),
        ) {
            (Ok(t), Ok(f)) => t.file_name@ == f && t.name@ == trim_white_space(name@),
            (Err(PresetError::Name(e)), Err(g)) => e == g,
            _ => false,
        },
{
    let all = chars_of(name);
    let trimmed = string_of(trim_class(all.as_slice(), TrimClass::WhiteSpace).as_slice());
    if is_builtin(trimmed.as_str()) {
        return Err(PresetError::Builtin);
    }
    match file_name_for(name) {
        Ok(file_name) => Ok(PresetTarget { file_name, name: trimmed }),
        Err(e) => Err(PresetError::Name(e)),
    }
}

/// The file that deleting the preset `name` removes from the preset directory, or why
/// it may not be deleted. Built-in presets cannot be deleted.
pub fn delete(name: &str) -> (r: Result<String, PresetError>)
    ensures
        builtin_names().contains(name@) ==> r == Err::<String, PresetError>(PresetError::Builtin),
        !builtin_names().contains(name@) ==> match (r, spec_file_name_for(name@)) {
            (Ok(f), Ok(g)) => f@ == g,
            (Err(PresetError::Name(e)), Err(g)) => e == g,
            _ => false,
        },
{
    if is_builtin(name) {
        return Err(PresetError::Builtin);
    }
    match file_name_for(name) {
        Ok(f) => Ok(f),
        Err(e) => Err(PresetError::Name(e)),
    }
}

/// Whether a file name carries the `toml` extension, as `Path::extension` reads it: the
/// part after the last full stop, where a full stop that begins the name does not count.
pub open spec fn has_toml_extension(f: Seq<char>) -> bool {
    f.len() >= 6 && f.subrange(f.len() - 5, f.len() as int) == toml_extension()
}

/// The stem of a file name with the `toml` extension, as `Path::file_stem` reads it.
pub open spec fn toml_file_stem(f: Seq<char>) -> Seq<char> {
    f.subrange(0, f.len() - 5)
}

/// The stem of a preset file name, or `None` for a file that is no preset.
pub fn toml_stem(file_name: &str) -> (r: Option<String>)
    ensures
        r is Some <==> has_toml_extension(file_name@),
        r matches Some(s) ==> s@ == toml_file_stem(file_name@),
{
    let v = chars_of(file_name);
    let n = v.len();
    if n < 6 {
        return None;
    }
    if !(v[n - 5] == '.' && v[n - 4] == 't' && v[n - 3] == 'o' && v[n - 2] == 'm' && v[n - 1]
        == 'l') {
        proof {
            if has_toml_extension(file_name@) {
                let t = file_name@.subrange(n - 5, n as int);
                assert(t[0] == v@[n - 5] && t[1] == v@[n - 4] && t[2] == v@[n - 3] && t[3]
                    == v@[n - 2] && t[4] == v@[n - 1]);
            }
        }
        return None;
    }
    assert(file_name@.subrange(n - 5, n as int) =~= toml_extension());
    let mut stem: Vec<char> = Vec::new();
    let mut i: usize = 0;
    while i < n - 5
        invariant
            n == v@.len(),
            n >= 6,
            i <= n - 5,
            stem@ == v@.subrange(0, i as int),
        decreases n - 5 - i,
    {
        stem.push(v[i]);
        i = i + 1;
        assert(stem@ == v@.subrange(0, i as int));
    }
    Some(string_of(stem.as_slice()))
}

/// One file of a preset directory: its name, and the preset name recorded inside it
/// when the file could be read.
#[derive(Debug, PartialEq, Eq)]
pub struct PresetFileEntry {
    pub file_name: String,
    pub recorded_name: Option<String>,
}

/// The name a preset file is listed under: the recorded name, else its stem.
pub open spec fn entry_name(e: PresetFileEntry) -> Seq<char> {
    match e.recorded_name {
        Some(n) => n@,
        None => toml_file_stem(e.file_name@),
    }
}

/// The names of the preset files among `entries`, in directory order.
pub open spec fn listed_names(entries: Seq<PresetFileEntry>) -> Seq<Seq<char>>
    decreases entries.len(),
{
    if entries.len() == 0 {
        Seq::empty()
    } else {
        let before = listed_names(entries.drop_last());
        if has_toml_extension(entries.last().file_name@) {
            before.push(entry_name(entries.last()))
        } else {
            before
        }
    }
}

/// The names of the presets in a directory, sorted: files without the `toml` extension
/// are skipped, and a file whose recorded name could not be read is listed under its stem.
pub fn list(entries: &Vec<PresetFileEntry>) -> (r: Vec<String>)
    ensures
        is_sorted(views(r@)),
        views(r@).to_multiset() == listed_names(entries@).to_multiset(),
{
    let mut names: Vec<String> = Vec::new();
    let mut i: usize = 0;
    while i < entries.len()
        invariant
            i <= entries@.len(),
            views(names@) == listed_names(entries@.take(i as int)),
        decreases entries@.len() - i,
    {
        let ghost before = names@;
        assert(entries@.take(i + 1).drop_last() == entries@.take(i as int));
        assert(entries@.take(i + 1).last() == entries@[i as int]);
        let entry = &entries[i];
        match toml_stem(entry.file_name.as_str()) {
            Some(stem) => {
                let name = match &entry.recorded_name {
                    Some(n) => n.clone(),
                    None => stem,
                };
                names.push(name);
                assert(views(names@) == views(before).push(name@));
            },
            None => {},
        }
        i = i + 1;
    }
    assert(entries@.take(entries@.len() as int) == entries@);
    sort_strings(names)
}

} // verus!
