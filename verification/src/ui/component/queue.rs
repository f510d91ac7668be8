//! Which files the photo queue takes.
//!
//! The list is fixed rather than read from libvips: files of other kinds that are
//! dropped on the queue are skipped quietly instead of failing later in the preview.

use vstd::prelude::*;

use crate::chars::{chars_of, str_eq, string_of};

verus! {

/// The extension of a file name, as `Path::extension` reads it: the part after the last
/// full stop, unless there is none or it is the first character, and none for `..`.
pub open spec fn file_extension(f: Seq<char>) -> Option<Seq<char>> {
    if f == seq!['.', '.'] {
        None
    } else if exists|k: int| 0 < k < f.len() && f[k] == '.' && forall|j: int| k < j < f.len() ==> f[j] != '.' {
        let k = choose|k: int| 0 < k < f.len() && f[k] == '.' && forall|j: int| k < j < f.len() ==> f[j] != '.';
        Some(f.subrange(k + 1, f.len() as int))
    } else {
        None
    }
}

/// `c` in lower case, for ASCII letters.
pub open spec fn ascii_lower(c: char) -> char {
    if 'A' <= c && c <= 'Z' {
        ((c as u32) + 32) as char
    } else {
        c
    }
}

/// The extensions of the image files the queue takes, in lower case.
pub open spec fn supported_extensions() -> Seq<Seq<char>> {
    seq![
        "jpg"@, "jpeg"@, "png"@, "webp"@, "tif"@, "tiff"@, "heic"@, "heif"@, "avif"@, "bmp"@,
        "gif"@, "raf"@, "cr2"@, "cr3"@, "nef"@, "arw"@, "dng"@, "orf"@, "rw2"@, "pef"@, "srw"@,
    ]
}

/// Whether a file, by the name it was dropped under, is an image the queue takes: its
/// extension, in lower case, is one of [`supported_extensions`].
pub open spec fn spec_is_supported_image(file_name: Seq<char>) -> bool {
    match file_extension(file_name) {
        Some(e) => supported_extensions().contains(e.map_values(|c: char| ascii_lower(c))),
        None => false,
    }
}

fn lower(c: char) -> (r: char)
    ensures
        r == ascii_lower(c),
{
    if 'A' <= c && c <= 'Z' {
        ((c as u8) + 32) as char
    } else {
        c
    }
}

/// Whether the file named `file_name` is an image the queue takes.
pub fn is_supported_image(file_name: &str) -> (b: bool)
    ensures
        b == spec_is_supported_image(file_name@),
{
    let f = chars_of(file_name);
    let n = f.len();
    if n == 2 && f[0] == '.' && f[1] == '.' {
        assert(f@ =~= seq!['.', '.']);
        return false;
    }
    proof {
        if f@ == seq!['.', '.'] {
            assert(f@.len() == 2 && f@[0] == '.' && f@[1] == '.');
        }
    }
    let mut k: usize = n;
    while k > 0 && f[k - 1] != '.'
        invariant
            k <= n,
            n == f@.len(),
            forall|j: int| k <= j < n ==> f@[j] != '.',
        decreases k,
    {
        k = k - 1;
    }
    if k <= 1 {
        proof {
            if exists|d: int| 0 < d < f@.len() && f@[d] == '.' && forall|j: int| d < j < f@.len() ==> f@[j] != '.' {
                let d = choose|d: int| 0 < d < f@.len() && f@[d] == '.' && forall|j: int| d < j < f@.len() ==> f@[j] != '.';
                assert(d < k);
            }
        }
        return false;
    }
    let dot = k - 1;
    proof {
        assert(0 < dot < f@.len() && f@[dot as int] == '.' && forall|j: int| dot < j < f@.len() ==> f@[j] != '.');
        let d = choose|d: int| 0 < d < f@.len() && f@[d] == '.' && forall|j: int| d < j < f@.len() ==> f@[j] != '.';
        assert(d == dot) by {
            if d < dot {
                assert(f@[dot as int] != '.');
            }
            if d > dot {
                assert(f@[d] != '.');
            }
        }
    }
    let mut ext: Vec<char> = Vec::new();
    let mut i: usize = dot + 1;
    while i < n
        invariant
            dot + 1 <= i <= n,
            n == f@.len(),
            ext@ == f@.subrange(dot + 1, i as int).map_values(|c: char| ascii_lower(c)),
        decreases n - i,
    {
        ext.push(lower(f[i]));
        i = i + 1;
        assert(ext@ == f@.subrange(dot + 1, i as int).map_values(|c: char| ascii_lower(c)));
    }
    let e = string_of(ext.as_slice());
    assert(file_extension(f@) == Some(f@.subrange(dot + 1, n as int)));
    let candidates: [&str; 21] = [
        "jpg", "jpeg", "png", "webp", "tif", "tiff", "heic", "heif", "avif", "bmp", "gif", "raf",
        "cr2", "cr3", "nef", "arw", "dng", "orf", "rw2", "pef", "srw",
    ];
    let ghost exts = supported_extensions();
    assert(spec_is_supported_image(file_name@) == exts.contains(e@));
    assert(forall|j: int| 0 <= j < 21 ==> (#[trigger] candidates@[j])@ == exts[j]);
    let mut j: usize = 0;
    while j < 21
        invariant
            j <= 21,
            exts == supported_extensions(),
            exts.len() == 21,
            spec_is_supported_image(file_name@) == exts.contains(e@),
            forall|m: int| 0 <= m < 21 ==> (#[trigger] candidates@[m])@ == exts[m],
            forall|m: int| 0 <= m < j ==> exts[m] != e@,
        decreases 21 - j,
    {
        if str_eq(e.as_str(), candidates[j]) {
            assert(exts[j as int] == e@);
            assert(exts.contains(e@));
            return true;
        }
        j = j + 1;
    }
    false
}

} // verus!
