//! Reading EXIF from JPEG files whose first APP1 segment is not EXIF.

use vstd::prelude::*;

use crate::features::motion_photo::container::{app1, exif_stub, spec_insert_motion_photo_xmp};
use crate::gainmap::{be16, bytes_at, exif_id, starts_as_jpeg, JpegError};

verus! {

/// The parsed EXIF of a photo, as nom-exif gives it.
#[verifier::external_type_specification]
#[verifier::external_body]
pub struct ExifRecord(nom_exif::Exif);

/// nom-exif's parse error.
#[verifier::external_type_specification]
#[verifier::external_body]
pub struct ExifParseError(nom_exif::Error);

/// Why no EXIF could be read from a JPEG.
#[derive(Debug)]
pub enum ExifReadError {
    /// The JPEG structure itself is broken, or holds no EXIF segment.
    Jpeg(JpegError),
    /// nom-exif could not parse the EXIF segment that was found.
    Parse(nom_exif::Error),
}

/// Walks the JPEG segments from `offset` on to the first EXIF APP1 segment, giving where
/// it starts and where it ends.
#[verifier::opaque]
pub open spec fn find_exif_app1_from(s: Seq<u8>, offset: int) -> Result<(int, int), JpegError>
    decreases s.len() - offset,
{
    if offset < 0 || offset + 4 > s.len() {
        Err(JpegError::ExifNotFound)
    } else if s[offset] != 0xff {
        Err(JpegError::CorruptMarker)
    } else if s[offset + 1] == 0xda || s[offset + 1] == 0xd9 {
        Err(JpegError::ExifNotFound)
    } else {
        let length = be16(s, offset + 2);
        if length < 2 || offset + 2 + length > s.len() {
            Err(JpegError::CorruptLength)
        } else if s[offset + 1] == 0xe1 && bytes_at(s, offset + 4, exif_id()) {
            Ok((offset, offset + 2 + length))
        } else {
            find_exif_app1_from(s, offset + 2 + length)
        }
    }
}

/// The smallest JPEG that nom-exif reads the EXIF of `s` from: the start-of-image marker
/// followed by the first EXIF APP1 segment.
pub open spec fn spec_exif_app1_jpeg(s: Seq<u8>) -> Result<Seq<u8>, JpegError> {
    if !starts_as_jpeg(s) {
        Err(JpegError::NotJpeg)
    } else {
        match find_exif_app1_from(s, 2) {
            Ok((start, end)) => Ok(seq![0xffu8, 0xd8u8] + s.subrange(start, end)),
            Err(e) => Err(e),
        }
    }
}

/// Cuts the first EXIF APP1 segment out of a JPEG, behind the start-of-image marker.
///
/// Some JPEGs carry an XMP APP1 segment before the EXIF one, and readers that only look
/// at the first APP1 segment miss their EXIF.
pub fn exif_app1_jpeg(jpeg: &[u8]) -> (r: Result<Vec<u8>, JpegError>)
    ensures
        match (r, spec_exif_app1_jpeg(jpeg@)) {
            (Ok(out), Ok(expected)) => out@ == expected,
            (Err(e), Err(f)) => e == f,
            _ => false,
        },
{
    if !(jpeg.len() >= 2 && jpeg[0] == 0xff && jpeg[1] == 0xd8) {
        return Err(JpegError::NotJpeg);
    }
    let mut offset: usize = 2;
    while offset <= jpeg.len() && jpeg.len() - offset >= 4
        invariant
            2 <= offset,
            starts_as_jpeg(jpeg@),
            spec_exif_app1_jpeg(jpeg@) == match find_exif_app1_from(jpeg@, offset as int) {
                Ok((start, end)) => Ok(seq![0xffu8, 0xd8u8] + jpeg@.subrange(start, end)),
                Err(e) => Err(e),
            },
        decreases jpeg@.len() - offset,
    {
        proof {
            reveal(find_exif_app1_from);
        }
        if jpeg[offset] != 0xff {
            return Err(JpegError::CorruptMarker);
        }
        let marker = jpeg[offset + 1];
        if marker == 0xda || marker == 0xd9 {
            return Err(JpegError::ExifNotFound);
        }
        let length = jpeg[offset + 2] as usize * 256 + jpeg[offset + 3] as usize;
        if !(length >= 2 && length <= jpeg.len() - offset - 2) {
            return Err(JpegError::CorruptLength);
        }
        let end = offset + 2 + length;
        if marker == 0xe1 && jpeg.len() - offset - 4 >= 6 && jpeg[offset + 4] == 0x45 && jpeg[offset
            + 5] == 0x78 && jpeg[offset + 6] == 0x69 && jpeg[offset + 7] == 0x66 && jpeg[offset + 8]
            == 0 && jpeg[offset + 9] == 0 {
            assert(jpeg@.subrange(offset + 4, offset + 10) =~= exif_id());
            let mut out: Vec<u8> = Vec::new();
            out.push(0xff);
            out.push(0xd8);
            let mut i: usize = offset;
            while i < end
                invariant
                    offset <= i <= end <= jpeg@.len(),
                    out@ == seq![0xffu8, 0xd8u8] + jpeg@.subrange(offset as int, i as int),
                decreases end - i,
            {
                out.push(jpeg[i]);
                i = i + 1;
                assert(out@ == seq![0xffu8, 0xd8u8] + jpeg@.subrange(offset as int, i as int));
            }
            return Ok(out);
        }
        proof {
            if marker == 0xe1 && bytes_at(jpeg@, offset + 4, exif_id()) {
                let t = jpeg@.subrange(offset + 4, offset + 10);
                assert(t[0] == jpeg@[offset + 4]);
                assert(t[1] == jpeg@[offset + 5]);
                assert(t[2] == jpeg@[offset + 6]);
                assert(t[3] == jpeg@[offset + 7]);
                assert(t[4] == jpeg@[offset + 8]);
                assert(t[5] == jpeg@[offset + 9]);
            }
        }
        offset = end;
    }
    proof {
        reveal(find_exif_app1_from);
    }
    Err(JpegError::ExifNotFound)
}

/// Whether nom-exif's EXIF parse accepts the bytes of an in-memory JPEG. That is decided
/// by the bytes alone: the file kind read from their head, then the EXIF header and
/// directory structure.
pub uninterp spec fn nom_exif_accepts(jpeg: Seq<u8>) -> bool;

/// nom-exif's EXIF parse of an in-memory JPEG: `MediaSource::from_memory`, then
/// `MediaParser::parse_exif`, collected with `Exif::from`. It succeeds exactly when
/// nom-exif accepts the bytes ([`nom_exif_accepts`]). What it reads is not claimed: the
/// `Exif` keeps its entries in hash maps that each process seeds, so two parses of the
/// same bytes are not the same value and are walked in different orders.
#[verifier::external_body]
fn parse_exif_jpeg(jpeg: Vec<u8>) -> (r: Result<nom_exif::Exif, nom_exif::Error>)
    ensures
        r is Ok == nom_exif_accepts(jpeg@),
{
    let source = nom_exif::MediaSource::from_memory(jpeg)?;
    let mut parser = nom_exif::MediaParser::new();
    parser.parse_exif(source).map(nom_exif::Exif::from)
}

/// Reads the EXIF of a JPEG from its first EXIF APP1 segment, which may come after an
/// XMP APP1 segment.
///
/// Fails with the structural error when the segment walk does; otherwise nom-exif is
/// handed exactly the JPEG that [`exif_app1_jpeg`] gives, and this succeeds exactly when
/// nom-exif accepts it.
pub fn read_exif_from_jpeg_app1(jpeg: &[u8]) -> (r: Result<nom_exif::Exif, ExifReadError>)
    ensures
        spec_exif_app1_jpeg(jpeg@) matches Err(e) ==> (r matches Err(ExifReadError::Jpeg(f)) && f == e),
        spec_exif_app1_jpeg(jpeg@) matches Ok(m) ==> {
            &&& r is Ok == nom_exif_accepts(m)
            &&& r is Err ==> r matches Err(ExifReadError::Parse(_))
        },
{
    match exif_app1_jpeg(jpeg) {
        Err(e) => Err(ExifReadError::Jpeg(e)),
        Ok(minimal) => match parse_exif_jpeg(minimal) {
            Ok(exif) => Ok(exif),
            Err(e) => Err(ExifReadError::Parse(e)),
        },
    }
}

/// In a Motion Photo the EXIF block is the first segment after the start-of-image
/// marker, so readers that look only at the first APP1 segment find EXIF there, and the
/// segment walk finds exactly that block.
pub proof fn lemma_motion_photo_exif_comes_first(jpeg: Seq<u8>, video_size: nat, timestamp: nat)
    requires
        spec_insert_motion_photo_xmp(jpeg, video_size, timestamp) is Ok,
    ensures
        ({
            let out = spec_insert_motion_photo_xmp(jpeg, video_size, timestamp)->Ok_0;
            &&& out[2] == 0xff && out[3] == 0xe1
            &&& bytes_at(out, 6, exif_id())
            &&& spec_exif_app1_jpeg(out) == Ok::<Seq<u8>, JpegError>(
                seq![0xffu8, 0xd8u8] + app1(exif_stub()),
            )
        }),
{
    reveal(find_exif_app1_from);
    let out = spec_insert_motion_photo_xmp(jpeg, video_size, timestamp)->Ok_0;
    let seg = app1(exif_stub());
    assert(seg.len() == 26);
    assert(out[0] == 0xff && out[1] == 0xd8);
    assert(out.subrange(2, 28) =~= seg);
    assert(out[2] == seg[0] && out[3] == seg[1] && out[4] == seg[2] && out[5] == seg[3]);
    assert(be16(out, 4) == 24);
    assert(out.subrange(6, 12) =~= exif_id());
    assert(find_exif_app1_from(out, 2) == Ok::<(int, int), JpegError>((2, 28)));
}

} // verus!
