//! Ultra HDR gain maps at the byte level: finding the MPF directory of a JPEG written by
//! libultrahdr, and adding the GContainer XMP that tells viewers which of its images is
//! the gain map.
//!
//! The pixel work on gain maps (libvips) and reading and writing the file stay with the
//! caller; this module takes and gives the bytes of the file.

use vstd::prelude::*;
use vstd::string::StringSliceAdditionalSpecFns;

use crate::decimal::{decimal, push_decimal};
use crate::features::motion_photo::container::{app1, append_bytes};

verus! {

/// Why a JPEG could not be read or changed.
#[derive(Debug, Clone, Copy, PartialEq, Eq)]
pub enum JpegError {
    /// The data does not start with the JPEG start-of-image marker.
    NotJpeg,
    /// A segment does not start with `0xff`.
    CorruptMarker,
    /// A segment length is below two or runs past the end of the data.
    CorruptLength,
    /// The MPF directory is not big-endian.
    UnsupportedByteOrder,
    /// A read or write of the MPF directory runs past the end of the data.
    OutOfBounds,
    /// No MPF entry list was found before the image data.
    MpfNotFound,
    /// No EXIF APP1 segment was found before the image data.
    ExifNotFound,
    /// The XMP packet does not fit in one APP1 segment.
    XmpTooLong,
    /// The EXIF segment comes after the MPF segment.
    ExifAfterMpf,
    /// The primary image size in the MPF entry would no longer fit in 32 bits.
    SizeOverflow,
}

/// The big-endian 16-bit number at `at`.
pub open spec fn be16(s: Seq<u8>, at: int) -> int {
    s[at] as int * 256 + s[at + 1] as int
}

/// The big-endian 32-bit number at `at`.
pub open spec fn be32(s: Seq<u8>, at: int) -> int {
    s[at] as int * 16777216 + s[at + 1] as int * 65536 + s[at + 2] as int * 256 + s[at + 3] as int
}

/// `s` with the big-endian 32-bit number `v` written at `at`.
pub open spec fn put_be32(s: Seq<u8>, at: int, v: u32) -> Seq<u8> {
    s.update(at, (v / 16777216) as u8).update(at + 1, ((v / 65536) % 256) as u8).update(
        at + 2,
        ((v / 256) % 256) as u8,
    ).update(at + 3, (v % 256) as u8)
}

/// `pattern` occurs in `s` at `at`.
pub open spec fn bytes_at(s: Seq<u8>, at: int, pattern: Seq<u8>) -> bool {
    0 <= at && at + pattern.len() <= s.len() && s.subrange(at, at + pattern.len()) == pattern
}

/// `pattern` occurs somewhere in `s`.
pub open spec fn contains_bytes(s: Seq<u8>, pattern: Seq<u8>) -> bool {
    exists|at: int| bytes_at(s, at, pattern)
}

/// The data starts with the JPEG start-of-image marker.
pub open spec fn starts_as_jpeg(s: Seq<u8>) -> bool {
    s.len() >= 2 && s[0] == 0xff && s[1] == 0xd8
}

/// The identifier that opens an EXIF APP1 payload.
pub open spec fn exif_id() -> Seq<u8> {
    seq![0x45u8, 0x78u8, 0x69u8, 0x66u8, 0u8, 0u8]
}

/// The identifier that opens an MPF APP2 payload.
pub open spec fn mpf_id() -> Seq<u8> {
    seq![0x4du8, 0x50u8, 0x46u8, 0u8]
}

/// A big-endian TIFF header whose first directory follows it directly.
pub open spec fn big_endian_tiff_header() -> Seq<u8> {
    seq![0x4du8, 0x4du8, 0u8, 0x2au8, 0u8, 0u8, 0u8, 0x08u8]
}

/// The big-endian 16-bit number at `at`.
pub fn read_be_u16(data: &[u8], at: usize) -> (r: Result<u16, JpegError>)
    requires
        at + 2 <= usize::MAX,
    ensures
        at + 2 <= data@.len() ==> r == Ok::<u16, JpegError>(be16(data@, at as int) as u16),
        at + 2 > data@.len() ==> r == Err::<u16, JpegError>(JpegError::OutOfBounds),
{
    if at + 2 > data.len() {
        return Err(JpegError::OutOfBounds);
    }
    Ok(data[at] as u16 * 256 + data[at + 1] as u16)
}

/// The big-endian 32-bit number at `at`.
pub fn read_be_u32(data: &[u8], at: usize) -> (r: Result<u32, JpegError>)
    requires
        at + 4 <= usize::MAX,
    ensures
        at + 4 <= data@.len() ==> r == Ok::<u32, JpegError>(be32(data@, at as int) as u32),
        at + 4 > data@.len() ==> r == Err::<u32, JpegError>(JpegError::OutOfBounds),
{
    if at + 4 > data.len() {
        return Err(JpegError::OutOfBounds);
    }
    Ok(data[at] as u32 * 16777216 + data[at + 1] as u32 * 65536 + data[at + 2] as u32 * 256
        + data[at + 3] as u32)
}

/// Writes `value` big-endian at `at`.
pub fn write_be_u32(data: &mut Vec<u8>, at: usize, value: u32) -> (r: Result<(), JpegError>)
    requires
        at + 4 <= usize::MAX,
    ensures
        at + 4 <= old(data)@.len() ==> r is Ok && final(data)@ == put_be32(
            old(data)@,
            at as int,
            value,
        ),
        at + 4 > old(data)@.len() ==> r == Err::<(), JpegError>(JpegError::OutOfBounds)
            && final(data)@ == old(data)@,
{
    if at + 4 > data.len() {
        return Err(JpegError::OutOfBounds);
    }
    data.set(at, (value / 16777216) as u8);
    data.set(at + 1, ((value / 65536) % 256) as u8);
    data.set(at + 2, ((value / 256) % 256) as u8);
    data.set(at + 3, (value % 256) as u8);
    Ok(())
}

/// Reading back a 32-bit number gives what was written there.
pub proof fn lemma_read_back_written_u32(s: Seq<u8>, at: int, v: u32)
    requires
        0 <= at,
        at + 4 <= s.len(),
    ensures
        be32(put_be32(s, at, v), at) == v,
        put_be32(s, at, v).len() == s.len(),
        forall|i: int|
            0 <= i < s.len() && !(at <= i < at + 4) ==> #[trigger] put_be32(s, at, v)[i] == s[i],
{
    let t = put_be32(s, at, v);
    assert(t[at] == (v / 16777216) as u8);
    assert(t[at + 1] == ((v / 65536) % 256) as u8);
    assert(t[at + 2] == ((v / 256) % 256) as u8);
    assert(t[at + 3] == (v % 256) as u8);
    assert((v / 16777216) as u8 as int * 16777216 + ((v / 65536) % 256) as u8 as int * 65536 + ((v
        / 256) % 256) as u8 as int * 256 + (v % 256) as u8 as int == v) by (bit_vector);
}

/// Whether `pattern` occurs at `at` in `s`.
fn bytes_match_at(s: &[u8], at: usize, pattern: &[u8]) -> (r: bool)
    ensures
        r == bytes_at(s@, at as int, pattern@),
{
    if at > s.len() || pattern.len() > s.len() - at {
        return false;
    }
    let mut i: usize = 0;
    while i < pattern.len()
        invariant
            at + pattern@.len() <= s@.len(),
            s@.len() <= usize::MAX,
            i <= pattern@.len(),
            forall|k: int| 0 <= k < i ==> s@[at + k] == pattern@[k],
        decreases pattern@.len() - i,
    {
        if s[at + i] != pattern[i] {
            assert(s@.subrange(at as int, at + pattern@.len())[i as int] != pattern@[i as int]);
            return false;
        }
        i = i + 1;
    }
    assert(s@.subrange(at as int, at + pattern@.len()) =~= pattern@);
    true
}

/// Whether `pattern` occurs anywhere in `s`.
pub fn contains_pattern(s: &[u8], pattern: &[u8]) -> (r: bool)
    ensures
        r == contains_bytes(s@, pattern@),
{
    if pattern.len() == 0 {
        assert(s@.subrange(0, 0) =~= pattern@);
        assert(bytes_at(s@, 0, pattern@));
        return true;
    }
    if pattern.len() > s.len() {
        return false;
    }
    let last = s.len() - pattern.len();
    let mut at: usize = 0;
    while at <= last
        invariant
            last + pattern@.len() == s@.len(),
            s@.len() <= usize::MAX,
            pattern@.len() > 0,
            at <= last + 1,
            forall|k: int| 0 <= k < at ==> !bytes_at(s@, k, pattern@),
        decreases last + 1 - at,
    {
        if bytes_match_at(s, at, pattern) {
            return true;
        }
        at = at + 1;
    }
    proof {
        assert forall|k: int| !bytes_at(s@, k, pattern@) by {
            if 0 <= k && k + pattern@.len() <= s@.len() {
                assert(k <= last);
            }
        }
    }
    false
}

/// What looking through the first `tags` entries of an MPF directory (from the entry
/// `t` on) for the MP entry list tag `0xb002` gives.
pub enum TagSearch {
    /// The tag is not there.
    Missing,
    /// The tag is there, and points this far past the TIFF header.
    Found(int),
    /// The directory runs past the end of the data.
    OutOfBounds,
}

/// Searches the MPF directory at `ifd` for the MP entry list tag.
pub open spec fn search_mp_entry(s: Seq<u8>, ifd: int, tags: int, t: int) -> TagSearch
    decreases tags - t,
{
    if t >= tags {
        TagSearch::Missing
    } else {
        let entry = ifd + 2 + 12 * t;
        if entry + 2 > s.len() {
            TagSearch::OutOfBounds
        } else if be16(s, entry) == 0xb002 {
            if entry + 12 > s.len() {
                TagSearch::OutOfBounds
            } else {
                TagSearch::Found(be32(s, entry + 8))
            }
        } else {
            search_mp_entry(s, ifd, tags, t + 1)
        }
    }
}

#[verifier::opaque]
/// Walks the JPEG segments from `offset` on, remembering where the last EXIF segment so
/// far ends, until it finds the MP entry list: `(MPF segment, MP entry list, EXIF end)`.
pub open spec fn find_mpf_from(s: Seq<u8>, offset: int, exif_end: Option<int>) -> Result<
    (int, int, Option<int>),
    JpegError,
>
    decreases s.len() - offset,
{
    if offset < 0 || offset + 4 > s.len() {
        Err(JpegError::MpfNotFound)
    } else if s[offset] != 0xff {
        Err(JpegError::CorruptMarker)
    } else if s[offset + 1] == 0xda || s[offset + 1] == 0xd9 {
        Err(JpegError::MpfNotFound)
    } else {
        let marker = s[offset + 1];
        let length = be16(s, offset + 2);
        if length < 2 || offset + 2 + length > s.len() {
            Err(JpegError::CorruptLength)
        } else {
            let payload = offset + 4;
            let exif_end2 = if marker == 0xe1 && bytes_at(s, payload, exif_id()) {
                Some(offset + 2 + length)
            } else {
                exif_end
            };
            if marker == 0xe2 && bytes_at(s, payload, mpf_id()) {
                let tiff = payload + 4;
                if !bytes_at(s, tiff, big_endian_tiff_header()) {
                    Err(JpegError::UnsupportedByteOrder)
                } else if tiff + 10 > s.len() {
                    Err(JpegError::OutOfBounds)
                } else {
                    match search_mp_entry(s, tiff + 8, be16(s, tiff + 8), 0) {
                        TagSearch::Found(mp_offset) => Ok((offset, tiff + mp_offset, exif_end2)),
                        TagSearch::OutOfBounds => Err(JpegError::OutOfBounds),
                        TagSearch::Missing => find_mpf_from(s, offset + 2 + length, exif_end2),
                    }
                }
            } else {
                find_mpf_from(s, offset + 2 + length, exif_end2)
            }
        }
    }
}

/// Where the MP entry list of a JPEG is: `(MPF segment, MP entry list, EXIF end)`.
pub open spec fn spec_find_mpf_entries(s: Seq<u8>) -> Result<(int, int, Option<int>), JpegError> {
    if !starts_as_jpeg(s) {
        Err(JpegError::NotJpeg)
    } else {
        find_mpf_from(s, 2, None)
    }
}

fn search_mp_entry_exec(jpeg: &[u8], ifd: usize, tags: usize) -> (r: Result<Option<u32>, JpegError>)
    requires
        ifd + 2 <= jpeg@.len(),
        tags <= 65535,
    ensures
        match (r, search_mp_entry(jpeg@, ifd as int, tags as int, 0)) {
            (Ok(Some(v)), TagSearch::Found(w)) => v == w,
            (Ok(None), TagSearch::Missing) => true,
            (Err(e), TagSearch::OutOfBounds) => e == JpegError::OutOfBounds,
            _ => false,
        },
{
    let len = jpeg.len() as u128;
    let mut tag: usize = 0;
    while tag < tags
        invariant
            ifd + 2 <= jpeg@.len(),
            jpeg@.len() <= usize::MAX,
            len == jpeg@.len(),
            tags <= 65535,
            tag <= tags,
            search_mp_entry(jpeg@, ifd as int, tags as int, 0) == search_mp_entry(
                jpeg@,
                ifd as int,
                tags as int,
                tag as int,
            ),
        decreases tags - tag,
    {
        let entry: u128 = ifd as u128 + 2 + tag as u128 * 12;
        if entry + 2 > len {
            return Err(JpegError::OutOfBounds);
        }
        let code = read_be_u16(jpeg, entry as usize)?;
        if code == 0xb002 {
            if entry + 12 > len {
                return Err(JpegError::OutOfBounds);
            }
            let mp_offset = read_be_u32(jpeg, entry as usize + 8)?;
            return Ok(Some(mp_offset));
        }
        tag = tag + 1;
    }
    Ok(None)
}

/// Finds the MP entry list of a JPEG written by libultrahdr: the offset of the MPF
/// segment, the offset of the entry list, and where the EXIF segment ends if one comes
/// before the MPF segment.
///
/// The entry list is found by a 32-bit offset that may point past the end of the data;
/// when it does not even fit in `usize`, the search fails with
/// [`JpegError::OutOfBounds`], which is what reading the entries there would give.
pub fn find_mpf_entries(jpeg: &[u8]) -> (r: Result<(usize, usize, Option<usize>), JpegError>)
    ensures
        match (r, spec_find_mpf_entries(jpeg@)) {
            (Ok((a, b, c)), Ok((x, y, z))) => a == x && b == y && match (c, z) {
                (Some(p), Some(q)) => p == q,
                (None, None) => true,
                _ => false,
            },
            (Err(e), Ok((_, y, _))) => y > usize::MAX && e == JpegError::OutOfBounds,
            (Err(e), Err(f)) => e == f,
            _ => false,
        },
        r matches Ok((a, b, _)) ==> a + 4 <= jpeg@.len() && b <= jpeg@.len() + 0xffff_ffff,
{
    if !(jpeg.len() >= 2 && jpeg[0] == 0xff && jpeg[1] == 0xd8) {
        return Err(JpegError::NotJpeg);
    }
    reveal(find_mpf_from);
    let mut offset: usize = 2;
    let mut exif_end: Option<usize> = None;
    let ghost mut exif_end_spec: Option<int> = None;
    while jpeg.len() - offset >= 4
        invariant
            2 <= offset <= jpeg@.len(),
            starts_as_jpeg(jpeg@),
            match (exif_end, exif_end_spec) {
                (Some(p), Some(q)) => p == q,
                (None, None) => true,
                _ => false,
            },
            spec_find_mpf_entries(jpeg@) == find_mpf_from(jpeg@, offset as int, exif_end_spec),
        decreases jpeg@.len() - offset,
    {
        proof {
            reveal(find_mpf_from);
        }
        if jpeg[offset] != 0xff {
            return Err(JpegError::CorruptMarker);
        }
        let marker = jpeg[offset + 1];
        if marker == 0xda || marker == 0xd9 {
            return Err(JpegError::MpfNotFound);
        }
        let length = read_be_u16(jpeg, offset + 2)? as usize;
        if !(length >= 2 && length <= jpeg.len() - offset - 2) {
            return Err(JpegError::CorruptLength);
        }
        let payload = offset + 4;
        if marker == 0xe1 && bytes_match_at(jpeg, payload, &[0x45, 0x78, 0x69, 0x66, 0, 0]) {
            exif_end = Some(offset + 2 + length);
            proof {
                exif_end_spec = Some(offset + 2 + length);
            }
        }
        if marker == 0xe2 && bytes_match_at(jpeg, payload, &[0x4d, 0x50, 0x46, 0]) {
            let tiff = payload + 4;
            if !bytes_match_at(jpeg, tiff, &[0x4d, 0x4d, 0, 0x2a, 0, 0, 0, 0x08]) {
                return Err(JpegError::UnsupportedByteOrder);
            }
            let ifd = tiff + 8;
            if jpeg.len() - ifd < 2 {
                return Err(JpegError::OutOfBounds);
            }
            let tags = read_be_u16(jpeg, ifd)? as usize;
            match search_mp_entry_exec(jpeg, ifd, tags)? {
                Some(mp_offset) => {
                    let entries = tiff as u128 + mp_offset as u128;
                    if entries > usize::MAX as u128 {
                        return Err(JpegError::OutOfBounds);
                    }
                    return Ok((offset, entries as usize, exif_end));
                },
                None => {},
            }
        }
        offset = offset + 2 + length;
    }
    proof {
        reveal(find_mpf_from);
    }
    Err(JpegError::MpfNotFound)
}

/// The XMP packet up to the gain map item.
pub const GCONTAINER_XMP_HEAD: &'static str = "http://ns.adobe.com/xap/1.0/\0<x:xmpmeta xmlns:x=\"adobe:ns:meta/\"><rdf:RDF xmlns:rdf=\"http://www.w3.org/1999/02/22-rdf-syntax-ns#\"><rdf:Description xmlns:Container=\"http://ns.google.com/photos/1.0/container/\" xmlns:Item=\"http://ns.google.com/photos/1.0/container/item/\"><Container:Directory><rdf:Seq><rdf:li rdf:parseType=\"Resource\"><Container:Item Item:Semantic=\"Primary\" Item:Mime=\"image/jpeg\"/></rdf:li><rdf:li rdf:parseType=\"Resource\"><Container:Item ";

/// The attribute that names the secondary image a gain map; its presence means the
/// file is already marked.
pub const GAINMAP_SEMANTIC: &'static str = "Item:Semantic=\"GainMap\"";

/// From the gain map's semantic up to its length.
pub const GCONTAINER_XMP_LENGTH: &'static str = " Item:Mime=\"image/jpeg\" Item:Length=\"";

/// From the gain map's length to the end of the packet.
pub const GCONTAINER_XMP_TAIL: &'static str = "\"/></rdf:li></rdf:Seq></Container:Directory></rdf:Description></rdf:RDF></x:xmpmeta>";

/// The GContainer XMP packet for a gain map image of `gainmap_size` bytes.
pub open spec fn gcontainer_xmp(gainmap_size: nat) -> Seq<u8> {
    GCONTAINER_XMP_HEAD.spec_bytes() + GAINMAP_SEMANTIC.spec_bytes()
        + GCONTAINER_XMP_LENGTH.spec_bytes() + decimal(gainmap_size)
        + GCONTAINER_XMP_TAIL.spec_bytes()
}

/// The JPEG with the gain map marked, `None` when it already is, or why it cannot be.
///
/// The XMP goes right after the EXIF segment (or after the start-of-image marker when
/// there is none), which keeps EXIF the first APP1 segment and leaves the offsets inside
/// the MPF segment, which follows, unchanged; the primary image size in the MP entry list
/// grows by the size of the inserted segment.
pub open spec fn spec_mark_jpeg_gainmap(s: Seq<u8>) -> Result<Option<Seq<u8>>, JpegError> {
    if contains_bytes(s, GAINMAP_SEMANTIC.spec_bytes()) {
        Ok(None)
    } else {
        match spec_find_mpf_entries(s) {
            Err(e) => Err(e),
            Ok((mpf, entries, exif_end)) => {
                if entries + 24 > s.len() {
                    Err(JpegError::OutOfBounds)
                } else {
                    let primary = be32(s, entries + 4);
                    let secondary = be32(s, entries + 20);
                    let payload = gcontainer_xmp(secondary as nat);
                    if payload.len() + 2 > 65535 {
                        Err(JpegError::XmpTooLong)
                    } else if primary + payload.len() + 4 > u32::MAX {
                        Err(JpegError::SizeOverflow)
                    } else {
                        let insertion = match exif_end {
                            Some(e) => e,
                            None => 2,
                        };
                        if insertion > mpf {
                            Err(JpegError::ExifAfterMpf)
                        } else {
                            let patched = put_be32(
                                s,
                                entries + 4,
                                (primary + payload.len() + 4) as u32,
                            );
                            Ok(
                                Some(
                                    patched.take(insertion) + app1(payload) + patched.skip(
                                        insertion,
                                    ),
                                ),
                            )
                        }
                    }
                }
            },
        }
    }
}

/// The GContainer XMP packet for a gain map image of `gainmap_size` bytes.
pub fn gcontainer_xmp_bytes(gainmap_size: u32) -> (payload: Vec<u8>)
    ensures
        payload@ == gcontainer_xmp(gainmap_size as nat),
{
    let mut payload: Vec<u8> = Vec::new();
    append_bytes(&mut payload, GCONTAINER_XMP_HEAD.as_bytes());
    append_bytes(&mut payload, GAINMAP_SEMANTIC.as_bytes());
    append_bytes(&mut payload, GCONTAINER_XMP_LENGTH.as_bytes());
    push_decimal(&mut payload, gainmap_size as u64);
    append_bytes(&mut payload, GCONTAINER_XMP_TAIL.as_bytes());
    payload
}

/// `data` with an APP1 segment holding `payload` inserted at `at`.
pub fn insert_app1_segment(data: &Vec<u8>, at: usize, payload: &[u8]) -> (out: Vec<u8>)
    requires
        at <= data@.len(),
        payload@.len() + 2 <= 65535,
    ensures
        out@ == data@.take(at as int) + app1(payload@) + data@.skip(at as int),
{
    let length = payload.len() + 2;
    let mut out: Vec<u8> = Vec::new();
    let mut i: usize = 0;
    while i < at
        invariant
            i <= at <= data@.len(),
            out@ == data@.take(i as int),
        decreases at - i,
    {
        out.push(data[i]);
        i = i + 1;
        assert(out@ == data@.take(i as int));
    }
    out.push(0xff);
    out.push(0xe1);
    out.push((length / 256) as u8);
    out.push((length % 256) as u8);
    append_bytes(&mut out, payload);
    let ghost prefix = out@;
    assert(prefix == data@.take(at as int) + app1(payload@));
    while i < data.len()
        invariant
            at <= i <= data@.len(),
            out@ == prefix + data@.subrange(at as int, i as int),
        decreases data@.len() - i,
    {
        out.push(data[i]);
        i = i + 1;
        assert(out@ == prefix + data@.subrange(at as int, i as int));
    }
    assert(data@.subrange(at as int, data@.len() as int) == data@.skip(at as int));
    out
}

/// Adds the GContainer XMP that names the second image of a libultrahdr JPEG its gain
/// map. Gives the new file contents, or `None` when the file is marked already.
///
/// libultrahdr's MPF entries only mark the second JPEG; some viewers (MediaInfo among
/// them) also need `Item:Semantic="GainMap"` to show it as a gain map.
pub fn mark_jpeg_gainmap(jpeg: Vec<u8>) -> (r: Result<Option<Vec<u8>>, JpegError>)
    ensures
        match (r, spec_mark_jpeg_gainmap(jpeg@)) {
            (Ok(Some(out)), Ok(Some(expected))) => out@ == expected,
            (Ok(None), Ok(None)) => true,
            (Err(e), Err(f)) => e == f,
            _ => false,
        },
        r matches Ok(Some(out)) ==> spec_mark_jpeg_gainmap(out@) == Ok::<
            Option<Seq<u8>>,
            JpegError,
        >(None),
{
    let ghost original = jpeg@;
    let len = jpeg.len();
    if contains_pattern(jpeg.as_slice(), GAINMAP_SEMANTIC.as_bytes()) {
        return Ok(None);
    }
    let (mpf, entries, exif_end) = match find_mpf_entries(jpeg.as_slice()) {
        Ok(found) => found,
        Err(e) => {
            assert(jpeg@.len() == len);
            return Err(e);
        },
    };
    if entries > jpeg.len() || jpeg.len() - entries < 24 {
        return Err(JpegError::OutOfBounds);
    }
    let primary_size = read_be_u32(jpeg.as_slice(), entries + 4)?;
    let secondary_size = read_be_u32(jpeg.as_slice(), entries + 20)?;
    let payload = gcontainer_xmp_bytes(secondary_size);
    if payload.len() > 65533 {
        return Err(JpegError::XmpTooLong);
    }
    let length = payload.len() + 2;
    let segment_len = length + 2;
    if primary_size as usize > 0xffff_ffff - segment_len {
        return Err(JpegError::SizeOverflow);
    }
    let mut patched = jpeg;
    write_be_u32(&mut patched, entries + 4, primary_size + segment_len as u32)?;
    let insertion = match exif_end {
        Some(end) => end,
        None => 2,
    };
    if insertion > mpf {
        return Err(JpegError::ExifAfterMpf);
    }
    let marked = insert_app1_segment(&patched, insertion, payload.as_slice());
    proof {
        lemma_marking_is_idempotent(original);
    }
    Ok(Some(marked))
}

/// The EXIF end that the MPF search reports never lies past the MPF segment it found.
proof fn lemma_exif_end_before_mpf(s: Seq<u8>, offset: int, exif_end: Option<int>)
    requires
        2 <= offset,
        exif_end matches Some(e) ==> 2 <= e <= offset,
    ensures
        find_mpf_from(s, offset, exif_end) matches Ok((mpf, _, Some(e))) ==> 2 <= e <= mpf,
    decreases s.len() - offset,
{
    reveal(find_mpf_from);
    if 0 <= offset && offset + 4 <= s.len() && s[offset] == 0xff && s[offset + 1] != 0xda
        && s[offset + 1] != 0xd9 {
        let length = be16(s, offset + 2);
        if length >= 2 && offset + 2 + length <= s.len() {
            let marker = s[offset + 1];
            let exif_end2 = if marker == 0xe1 && bytes_at(s, offset + 4, exif_id()) {
                Some(offset + 2 + length)
            } else {
                exif_end
            };
            lemma_exif_end_before_mpf(s, offset + 2 + length, exif_end2);
        }
    }
}

/// The XMP is always inserted before the MPF segment: marking never fails with
/// [`JpegError::ExifAfterMpf`], the check for it only guards the invariant.
pub proof fn lemma_xmp_goes_before_mpf(s: Seq<u8>)
    ensures
        spec_mark_jpeg_gainmap(s) != Err::<Option<Seq<u8>>, JpegError>(JpegError::ExifAfterMpf),
{
    if starts_as_jpeg(s) {
        lemma_exif_end_before_mpf(s, 2, None);
        lemma_mpf_segment_after_start(s, 2, None);
        if spec_find_mpf_entries(s) is Ok {
            let (mpf, _, exif_end) = spec_find_mpf_entries(s)->Ok_0;
            assert(find_mpf_from(s, 2, None) == Ok::<(int, int, Option<int>), JpegError>((mpf, spec_find_mpf_entries(s)->Ok_0.1, exif_end)));
            let insertion = match exif_end {
                Some(e) => e,
                None => 2,
            };
            assert(insertion <= mpf);
        }
    }
}

/// The MPF segment the search finds lies at or after where the search started, and the
/// search itself never reports the EXIF order.
proof fn lemma_mpf_segment_after_start(s: Seq<u8>, offset: int, exif_end: Option<int>)
    ensures
        find_mpf_from(s, offset, exif_end) matches Ok((mpf, _, _)) ==> offset <= mpf,
        find_mpf_from(s, offset, exif_end) != Err::<(int, int, Option<int>), JpegError>(
            JpegError::ExifAfterMpf,
        ),
    decreases s.len() - offset,
{
    reveal(find_mpf_from);
    if 0 <= offset && offset + 4 <= s.len() && s[offset] == 0xff && s[offset + 1] != 0xda
        && s[offset + 1] != 0xd9 {
        let length = be16(s, offset + 2);
        if length >= 2 && offset + 2 + length <= s.len() {
            let marker = s[offset + 1];
            let exif_end2 = if marker == 0xe1 && bytes_at(s, offset + 4, exif_id()) {
                Some(offset + 2 + length)
            } else {
                exif_end
            };
            lemma_mpf_segment_after_start(s, offset + 2 + length, exif_end2);
        }
    }
}

/// The gain map semantic sits inside the GContainer packet, right after its head.
proof fn lemma_semantic_in_packet(size: nat)
    ensures
        bytes_at(gcontainer_xmp(size), GCONTAINER_XMP_HEAD.spec_bytes().len() as int, GAINMAP_SEMANTIC.spec_bytes()),
{
    let head = GCONTAINER_XMP_HEAD.spec_bytes();
    let sem = GAINMAP_SEMANTIC.spec_bytes();
    let p = gcontainer_xmp(size);
    assert(p.subrange(head.len() as int, (head.len() + sem.len()) as int) =~= sem);
}

/// `pattern` inside a piece is inside the sequence the piece is spliced into.
proof fn lemma_bytes_at_splice(a: Seq<u8>, b: Seq<u8>, c: Seq<u8>, at: int, pattern: Seq<u8>)
    requires
        bytes_at(b, at, pattern),
    ensures
        bytes_at(a + b + c, a.len() + at, pattern),
{
    let t = a + b + c;
    assert(t.subrange(a.len() + at, a.len() + at + pattern.len()) =~= b.subrange(
        at,
        at + pattern.len(),
    ));
}

/// Marking a gain map twice changes nothing the second time: a marked file is
/// recognised as marked.
pub proof fn lemma_marking_is_idempotent(s: Seq<u8>)
    requires
        spec_mark_jpeg_gainmap(s) is Ok,
        spec_mark_jpeg_gainmap(s)->Ok_0 is Some,
    ensures
        spec_mark_jpeg_gainmap(spec_mark_jpeg_gainmap(s)->Ok_0->Some_0) == Ok::<
            Option<Seq<u8>>,
            JpegError,
        >(None),
{
    let t = spec_mark_jpeg_gainmap(s)->Ok_0->Some_0;
    let (mpf, entries, exif_end) = spec_find_mpf_entries(s)->Ok_0;
    let primary = be32(s, entries + 4);
    let secondary = be32(s, entries + 20);
    let payload = gcontainer_xmp(secondary as nat);
    let insertion = match exif_end {
        Some(e) => e,
        None => 2,
    };
    let patched = put_be32(s, entries + 4, (primary + payload.len() + 4) as u32);
    let head = GCONTAINER_XMP_HEAD.spec_bytes();
    let sem = GAINMAP_SEMANTIC.spec_bytes();
    lemma_semantic_in_packet(secondary as nat);
    let segment = app1(payload);
    let header = seq![0xffu8, 0xe1u8, ((payload.len() + 2) / 256) as u8, ((payload.len() + 2) % 256) as u8];
    assert(segment == header + payload);
    lemma_bytes_at_splice(header, payload, Seq::<u8>::empty(), head.len() as int, sem);
    assert(header + payload + Seq::<u8>::empty() =~= segment);
    lemma_bytes_at_splice(patched.take(insertion), segment, patched.skip(insertion), (4 + head.len()) as int, sem);
    assert(t == patched.take(insertion) + segment + patched.skip(insertion));
    assert(contains_bytes(t, sem));
}

/// A found MP entry pointer is a 32-bit number, never negative.
proof fn lemma_found_offset_is_not_negative(s: Seq<u8>, ifd: int, tags: int, t: int)
    ensures
        search_mp_entry(s, ifd, tags, t) matches TagSearch::Found(v) ==> v >= 0,
    decreases tags - t,
{
    if t < tags {
        lemma_found_offset_is_not_negative(s, ifd, tags, t + 1);
    }
}

/// The MP entry list the search finds lies inside the MPF segment, past its header.
proof fn lemma_entries_after_mpf(s: Seq<u8>, offset: int, exif_end: Option<int>)
    ensures
        find_mpf_from(s, offset, exif_end) matches Ok((mpf, entries, _)) ==> mpf + 8 <= entries,
    decreases s.len() - offset,
{
    reveal(find_mpf_from);
    if 0 <= offset && offset + 4 <= s.len() && s[offset] == 0xff && s[offset + 1] != 0xda
        && s[offset + 1] != 0xd9 {
        let length = be16(s, offset + 2);
        if length >= 2 && offset + 2 + length <= s.len() {
            let marker = s[offset + 1];
            let tiff = offset + 8;
            lemma_found_offset_is_not_negative(s, tiff + 8, be16(s, tiff + 8), 0);
            let exif_end2 = if marker == 0xe1 && bytes_at(s, offset + 4, exif_id()) {
                Some(offset + 2 + length)
            } else {
                exif_end
            };
            lemma_entries_after_mpf(s, offset + 2 + length, exif_end2);
        }
    }
}

/// Marking moves everything from the insertion point on (the MPF segment and the gain
/// map image with it) by the length of the new segment and changes none of it but the
/// primary image size, which grows by that length; so the offsets inside the MPF
/// segment, which count from the segment itself, still find the gain map. Everything
/// before the insertion point stays where it was.
pub proof fn lemma_marking_keeps_mpf_offsets(s: Seq<u8>)
    requires
        spec_mark_jpeg_gainmap(s) matches Ok(Some(_)),
    ensures
        ({
            let t = spec_mark_jpeg_gainmap(s)->Ok_0->Some_0;
            let (mpf, entries, exif_end) = spec_find_mpf_entries(s)->Ok_0;
            let insertion = match exif_end {
                Some(e) => e,
                None => 2,
            };
            let growth = t.len() - s.len();
            &&& growth == gcontainer_xmp(be32(s, entries + 20) as nat).len() + 4
            &&& 2 <= insertion <= mpf < entries
            &&& forall|k: int| 0 <= k < insertion ==> #[trigger] t[k] == s[k]
            &&& forall|k: int|
                insertion <= k < s.len() && !(entries + 4 <= k < entries + 8) ==> #[trigger] t[k
                    + growth] == s[k]
            &&& be32(t, entries + 4 + growth) == be32(s, entries + 4) + growth
        }),
{
    let t = spec_mark_jpeg_gainmap(s)->Ok_0->Some_0;
    let (mpf, entries, exif_end) = spec_find_mpf_entries(s)->Ok_0;
    lemma_exif_end_before_mpf(s, 2, None);
    lemma_mpf_segment_after_start(s, 2, None);
    lemma_entries_after_mpf(s, 2, None);
    assert(find_mpf_from(s, 2, None) == Ok::<(int, int, Option<int>), JpegError>((mpf, entries, exif_end)));
    let primary = be32(s, entries + 4);
    let secondary = be32(s, entries + 20);
    let payload = gcontainer_xmp(secondary as nat);
    let insertion = match exif_end {
        Some(e) => e,
        None => 2,
    };
    let grown = (primary + payload.len() + 4) as u32;
    let patched = put_be32(s, entries + 4, grown);
    lemma_read_back_written_u32(s, entries + 4, grown);
    let segment = app1(payload);
    assert(t == patched.take(insertion) + segment + patched.skip(insertion));
    assert(segment.len() == payload.len() + 4);
    let growth = segment.len() as int;
    let before = patched.take(insertion);
    let after = patched.skip(insertion);
    assert(before.len() == insertion);
    assert(after.len() == s.len() - insertion);
    assert(t == (before + segment) + after);
    assert forall|k: int| insertion <= k < s.len() implies #[trigger] t[k + growth] == patched[k] by {
        assert(t[k + growth] == after[k - insertion]);
    }
    assert forall|k: int| 0 <= k < insertion implies #[trigger] t[k] == s[k] by {
        assert(t[k] == before[k]);
    }
    assert(t.subrange(entries + 4 + growth, entries + 8 + growth) =~= patched.subrange(
        entries + 4,
        entries + 8,
    ));
    assert(be32(t, entries + 4 + growth) == be32(patched, entries + 4));
}

/// The MP entry search looks at every directory entry in turn: when entry `k` is the
/// first whose tag is `0xb002` (the entries before it carry other tags, as MPFVersion and
/// NumberOfImages do in the files libultrahdr writes), and it lies inside the data, the
/// search finds the 32-bit offset stored in entry `k`.
pub proof fn lemma_first_mp_entry_tag_is_found(s: Seq<u8>, ifd: int, tags: int, k: int)
    requires
        0 <= ifd,
        0 <= k < tags,
        ifd + 2 + 12 * k + 12 <= s.len(),
        be16(s, ifd + 2 + 12 * k) == 0xb002,
        forall|j: int| 0 <= j < k ==> #[trigger] be16(s, ifd + 2 + 12 * j) != 0xb002,
    ensures
        search_mp_entry(s, ifd, tags, 0) == TagSearch::Found(be32(s, ifd + 2 + 12 * k + 8)),
{
    lemma_search_reaches_entry(s, ifd, tags, k, 0);
}

proof fn lemma_search_reaches_entry(s: Seq<u8>, ifd: int, tags: int, k: int, t: int)
    requires
        0 <= ifd,
        0 <= t <= k < tags,
        ifd + 2 + 12 * k + 12 <= s.len(),
        be16(s, ifd + 2 + 12 * k) == 0xb002,
        forall|j: int| 0 <= j < k ==> #[trigger] be16(s, ifd + 2 + 12 * j) != 0xb002,
    ensures
        search_mp_entry(s, ifd, tags, t) == TagSearch::Found(be32(s, ifd + 2 + 12 * k + 8)),
    decreases k - t,
{
    if t < k {
        assert(be16(s, ifd + 2 + 12 * t) != 0xb002);
        assert(ifd + 2 + 12 * t + 2 <= s.len());
        lemma_search_reaches_entry(s, ifd, tags, k, t + 1);
    }
}

/// Walking the segments: an MPF APP2 segment (`MPF\0`, then a big-endian TIFF header)
/// whose directory holds the MP entry tag gives that segment, the entry list at the
/// stored offset counted from the TIFF header (eight bytes into the payload), and the
/// EXIF end remembered so far.
pub proof fn lemma_mpf_segment_gives_its_entries(s: Seq<u8>, offset: int, exif_end: Option<int>, v: int)
    requires
        0 <= offset,
        offset + 2 + be16(s, offset + 2) <= s.len(),
        be16(s, offset + 2) >= 2,
        s[offset] == 0xff,
        s[offset + 1] == 0xe2,
        s.subrange(offset + 4, offset + 8) == seq![0x4du8, 0x50u8, 0x46u8, 0x00u8],
        s.subrange(offset + 8, offset + 16) == seq![0x4du8, 0x4du8, 0x00u8, 0x2au8, 0x00u8, 0x00u8, 0x00u8, 0x08u8],
        offset + 18 <= s.len(),
        search_mp_entry(s, offset + 16, be16(s, offset + 16), 0) == TagSearch::Found(v),
    ensures
        find_mpf_from(s, offset, exif_end) == Ok::<(int, int, Option<int>), JpegError>(
            (offset, offset + 8 + v, exif_end),
        ),
{
    reveal(find_mpf_from);
    assert(bytes_at(s, offset + 4, mpf_id()));
    assert(bytes_at(s, offset + 8, big_endian_tiff_header()));
    assert(!bytes_at(s, offset + 4, exif_id())) by {
        assert(s[offset + 1] != 0xe1);
    }
}

/// Walking the segments: an EXIF APP1 segment (`Exif\0\0`) is passed over, and the walk
/// remembers that the EXIF ends where the segment ends.
pub proof fn lemma_exif_segment_is_remembered(s: Seq<u8>, offset: int, exif_end: Option<int>)
    requires
        0 <= offset,
        offset + 2 + be16(s, offset + 2) <= s.len(),
        be16(s, offset + 2) >= 2,
        s[offset] == 0xff,
        s[offset + 1] == 0xe1,
        offset + 10 <= s.len(),
        s.subrange(offset + 4, offset + 10) == seq![0x45u8, 0x78u8, 0x69u8, 0x66u8, 0x00u8, 0x00u8],
    ensures
        ({
            let next = offset + 2 + be16(s, offset + 2);
            find_mpf_from(s, offset, exif_end) == find_mpf_from(s, next, Some(next))
        }),
{
    reveal(find_mpf_from);
    assert(bytes_at(s, offset + 4, exif_id()));
}

} // verus!
