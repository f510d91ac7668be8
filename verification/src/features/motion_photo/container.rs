//! The APP1/XMP wrapping that turns a JPEG cover into a Google Motion Photo.

use vstd::prelude::*;
use vstd::string::StringSliceAdditionalSpecFns;

use crate::decimal::{decimal, push_decimal};

verus! {

/// Why a JPEG could not be wrapped.
#[derive(Debug, Clone, Copy, PartialEq, Eq)]
pub enum ContainerError {
    /// The cover does not start with the JPEG start-of-image marker.
    NotJpeg,
    /// The payload does not fit in one APP1 segment.
    SegmentTooLong,
}

/// The empty big-endian EXIF block placed before the XMP, so that EXIF readers that
/// look only at the first APP1 segment still find EXIF there: `Exif\0\0`, a TIFF header
/// whose first directory follows it, and an empty directory.
pub open spec fn exif_stub() -> Seq<u8> {
    seq![
        0x45u8, 0x78u8, 0x69u8, 0x66u8, 0u8, 0u8, 0x4du8, 0x4du8, 0u8, 0x2au8, 0u8, 0u8, 0u8,
        0x08u8, 0u8, 0u8, 0u8, 0u8, 0u8, 0u8, 0u8, 0u8,
    ]
}

/// The bytes of [`exif_stub`].
pub fn exif_stub_bytes() -> (v: Vec<u8>)
    ensures
        v@ == exif_stub(),
{
    let v: Vec<u8> = vec![
        0x45, 0x78, 0x69, 0x66, 0, 0, 0x4d, 0x4d, 0, 0x2a, 0, 0, 0, 0x08, 0, 0, 0, 0, 0, 0, 0, 0,
    ];
    assert(v@ =~= exif_stub());
    v
}

/// The XMP packet up to the presentation timestamp.
pub const MOTION_XMP_HEAD: &'static str = "http://ns.adobe.com/xap/1.0/\0<x:xmpmeta xmlns:x=\"adobe:ns:meta/\"><rdf:RDF xmlns:rdf=\"http://www.w3.org/1999/02/22-rdf-syntax-ns#\"><rdf:Description xmlns:GCamera=\"http://ns.google.com/photos/1.0/camera/\" xmlns:Container=\"http://ns.google.com/photos/1.0/container/\" xmlns:Item=\"http://ns.google.com/photos/1.0/container/item/\" ";

/// The attribute that marks a JPEG as a Motion Photo.
pub const MOTION_PHOTO_FLAG: &'static str = "GCamera:MotionPhoto=\"1\"";

/// From the version attribute up to the presentation timestamp's value.
pub const MOTION_XMP_TIMESTAMP: &'static str = " GCamera:MotionPhotoVersion=\"1\" GCamera:MotionPhotoPresentationTimestampUs=\"";

/// From the timestamp's end up to the video length's value.
pub const MOTION_XMP_MIDDLE: &'static str = "\"><Container:Directory><rdf:Seq><rdf:li rdf:parseType=\"Resource\"><Container:Item Item:Mime=\"image/jpeg\" Item:Semantic=\"Primary\"/></rdf:li><rdf:li rdf:parseType=\"Resource\"><Container:Item Item:Mime=\"video/mp4\" Item:Semantic=\"MotionPhoto\" Item:Length=\"";

/// From the video length's end to the end of the packet.
pub const MOTION_XMP_TAIL: &'static str = "\" Item:Padding=\"0\"/></rdf:li></rdf:Seq></Container:Directory></rdf:Description></rdf:RDF></x:xmpmeta>";

/// An APP1 segment: marker, big-endian length (which counts itself), payload.
pub open spec fn app1(payload: Seq<u8>) -> Seq<u8> {
    seq![0xffu8, 0xe1u8, ((payload.len() + 2) / 256) as u8, ((payload.len() + 2) % 256) as u8]
        + payload
}

/// The Motion Photo XMP packet for a video of `video_size` bytes whose cover frame sits
/// `timestamp` microseconds into the clip.
pub open spec fn motion_photo_xmp(video_size: nat, timestamp: nat) -> Seq<u8> {
    MOTION_XMP_HEAD.spec_bytes() + MOTION_PHOTO_FLAG.spec_bytes() + MOTION_XMP_TIMESTAMP.spec_bytes()
        + decimal(timestamp) + MOTION_XMP_MIDDLE.spec_bytes() + decimal(video_size)
        + MOTION_XMP_TAIL.spec_bytes()
}

/// The bytes of `bytes` appended to `out`.
pub fn append_bytes(out: &mut Vec<u8>, bytes: &[u8])
    ensures
        final(out)@ == old(out)@ + bytes@,
{
    let ghost start = out@;
    let mut i: usize = 0;
    while i < bytes.len()
        invariant
            i <= bytes@.len(),
            out@ == start + bytes@.take(i as int),
        decreases bytes@.len() - i,
    {
        out.push(bytes[i]);
        i = i + 1;
        assert(out@ == start + bytes@.take(i as int));
    }
    assert(bytes@.take(bytes@.len() as int) == bytes@);
}

/// Wraps `payload` in an APP1 segment.
pub fn app1_segment(payload: &[u8]) -> (r: Result<Vec<u8>, ContainerError>)
    ensures
        payload@.len() + 2 <= 65535 ==> (r matches Ok(s) && s@ == app1(payload@)),
        payload@.len() + 2 > 65535 ==> r == Err::<Vec<u8>, ContainerError>(
            ContainerError::SegmentTooLong,
        ),
{
    if payload.len() > 65533 {
        return Err(ContainerError::SegmentTooLong);
    }
    let length = payload.len() + 2;
    let mut segment: Vec<u8> = Vec::new();
    segment.push(0xff);
    segment.push(0xe1);
    segment.push((length / 256) as u8);
    segment.push((length % 256) as u8);
    append_bytes(&mut segment, payload);
    Ok(segment)
}

/// Whether `data` opens with the JPEG start-of-image marker `ff d8`, as a cover frame
/// must before a Motion Photo is built around it.
pub fn is_jpeg_cover(data: &[u8]) -> (b: bool)
    ensures
        b == (data@.len() >= 2 && data@[0] == 0xff && data@[1] == 0xd8),
{
    data.len() >= 2 && data[0] == 0xff && data[1] == 0xd8
}

/// The Motion Photo JPEG: the cover with an EXIF and an XMP APP1 segment inserted right
/// after the start-of-image marker, or why the cover cannot carry them.
pub open spec fn spec_insert_motion_photo_xmp(jpeg: Seq<u8>, video_size: nat, timestamp: nat) -> Result<
    Seq<u8>,
    ContainerError,
> {
    if !(jpeg.len() >= 2 && jpeg[0] == 0xff && jpeg[1] == 0xd8) {
        Err(ContainerError::NotJpeg)
    } else if motion_photo_xmp(video_size, timestamp).len() + 2 > 65535 {
        Err(ContainerError::SegmentTooLong)
    } else {
        Ok(jpeg.take(2) + app1(exif_stub()) + app1(motion_photo_xmp(video_size, timestamp))
            + jpeg.skip(2))
    }
}

/// Inserts the Motion Photo metadata into a JPEG cover whose video, of `video_size`
/// bytes, will be appended after it.
pub fn insert_motion_photo_xmp(jpeg: Vec<u8>, video_size: usize, timestamp: u64) -> (r: Result<
    Vec<u8>,
    ContainerError,
>)
    ensures
        match (r, spec_insert_motion_photo_xmp(jpeg@, video_size as nat, timestamp as nat)) {
            (Ok(out), Ok(expected)) => out@ == expected,
            (Err(e), Err(f)) => e == f,
            _ => false,
        },
{
    if !(jpeg.len() >= 2 && jpeg[0] == 0xff && jpeg[1] == 0xd8) {
        return Err(ContainerError::NotJpeg);
    }
    let mut xmp: Vec<u8> = Vec::new();
    append_bytes(&mut xmp, MOTION_XMP_HEAD.as_bytes());
    append_bytes(&mut xmp, MOTION_PHOTO_FLAG.as_bytes());
    append_bytes(&mut xmp, MOTION_XMP_TIMESTAMP.as_bytes());
    push_decimal(&mut xmp, timestamp);
    append_bytes(&mut xmp, MOTION_XMP_MIDDLE.as_bytes());
    push_decimal(&mut xmp, video_size as u64);
    append_bytes(&mut xmp, MOTION_XMP_TAIL.as_bytes());
    assert(xmp@ == motion_photo_xmp(video_size as nat, timestamp as nat));
    let stub = exif_stub_bytes();
    let exif = app1_segment(stub.as_slice())?;
    let xmp_segment = app1_segment(xmp.as_slice())?;
    let mut out: Vec<u8> = Vec::new();
    out.push(0xff);
    out.push(0xd8);
    append_bytes(&mut out, exif.as_slice());
    append_bytes(&mut out, xmp_segment.as_slice());
    let mut i: usize = 2;
    let ghost prefix = out@;
    assert(prefix == jpeg@.take(2) + app1(exif_stub()) + app1(xmp@));
    while i < jpeg.len()
        invariant
            2 <= i <= jpeg@.len(),
            out@ == prefix + jpeg@.subrange(2, i as int),
        decreases jpeg@.len() - i,
    {
        out.push(jpeg[i]);
        i = i + 1;
        assert(out@ == prefix + jpeg@.subrange(2, i as int));
    }
    assert(jpeg@.subrange(2, jpeg@.len() as int) == jpeg@.skip(2));
    Ok(out)
}

} // verus!
