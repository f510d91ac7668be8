use lumen_frame::gainmap::{
    contains_pattern, find_mpf_entries, mark_jpeg_gainmap, read_be_u16, read_be_u32, write_be_u32,
    JpegError,
};
use lumen_frame::media::metadata::{exif_app1_jpeg, read_exif_from_jpeg_app1, ExifReadError};

fn segment(marker: u8, payload: &[u8]) -> Vec<u8> {
    let mut out = vec![0xff, marker];
    out.extend_from_slice(&((payload.len() + 2) as u16).to_be_bytes());
    out.extend_from_slice(payload);
    out
}

fn exif_segment() -> Vec<u8> {
    let mut payload = b"Exif\0\0".to_vec();
    payload.extend_from_slice(&[0; 8]);
    segment(0xe1, &payload)
}

/// An MPF APP2 segment whose MP entry list holds a primary image of `primary` bytes and
/// a gain map of `secondary` bytes.
fn mpf_segment(primary: u32, secondary: u32) -> Vec<u8> {
    let mut payload = b"MPF\0".to_vec();
    payload.extend_from_slice(b"MM\0*\0\0\0\x08");
    payload.extend_from_slice(&[0, 1]);
    payload.extend_from_slice(&[0xb0, 0x02, 0, 7, 0, 0, 0, 32, 0, 0, 0, 26]);
    payload.extend_from_slice(&[0, 0, 0, 0]);
    payload.extend_from_slice(&[0, 0, 0, 0]);
    payload.extend_from_slice(&primary.to_be_bytes());
    payload.extend_from_slice(&[0; 8]);
    payload.extend_from_slice(&[0, 0, 0, 0]);
    payload.extend_from_slice(&secondary.to_be_bytes());
    payload.extend_from_slice(&[0; 8]);
    segment(0xe2, &payload)
}

fn ultra_hdr_jpeg() -> Vec<u8> {
    let mut jpeg = vec![0xff, 0xd8];
    jpeg.extend(exif_segment());
    jpeg.extend(mpf_segment(1000, 500));
    jpeg.extend_from_slice(&[0xff, 0xda, 0, 2, 1, 2, 3, 0xff, 0xd9]);
    jpeg
}

fn contains(haystack: &[u8], needle: &[u8]) -> bool {
    haystack.windows(needle.len()).any(|window| window == needle)
}

#[test]
fn big_endian_reads_and_writes() {
    let mut data = vec![0x12, 0x34, 0x56, 0x78, 0x9a];
    assert_eq!(read_be_u16(&data, 0), Ok(0x1234));
    assert_eq!(read_be_u32(&data, 1), Ok(0x3456789a));
    assert_eq!(read_be_u32(&data, 2), Err(JpegError::OutOfBounds));
    assert_eq!(read_be_u16(&data, 4), Err(JpegError::OutOfBounds));
    assert_eq!(write_be_u32(&mut data, 1, 0xdeadbeef), Ok(()));
    assert_eq!(data, vec![0x12, 0xde, 0xad, 0xbe, 0xef]);
    assert_eq!(read_be_u32(&data, 1), Ok(0xdeadbeef));
    assert_eq!(write_be_u32(&mut data, 3, 1), Err(JpegError::OutOfBounds));
    assert_eq!(data, vec![0x12, 0xde, 0xad, 0xbe, 0xef]);
}

#[test]
fn pattern_search_finds_any_occurrence() {
    assert!(contains_pattern(b"abcdef", b"cde"));
    assert!(!contains_pattern(b"abcdef", b"ced"));
    assert!(!contains_pattern(b"ab", b"abc"));
    assert!(contains_pattern(b"abc", b"abc"));
}

#[test]
fn mpf_entries_are_found_after_exif() {
    let jpeg = ultra_hdr_jpeg();
    let exif_len = exif_segment().len();
    let (mpf, entries, exif_end) = find_mpf_entries(&jpeg).unwrap();
    assert_eq!(exif_end, Some(2 + exif_len));
    assert_eq!(mpf, 2 + exif_len);
    assert_eq!(entries, mpf + 4 + 4 + 26);
    assert_eq!(read_be_u32(&jpeg, entries + 4), Ok(1000));
    assert_eq!(read_be_u32(&jpeg, entries + 20), Ok(500));
}

#[test]
fn mpf_search_reports_broken_files() {
    assert_eq!(find_mpf_entries(b"\x89PNG"), Err(JpegError::NotJpeg));
    assert_eq!(find_mpf_entries(&[0xff, 0xd8, 0xff, 0xd9]), Err(JpegError::MpfNotFound));
    assert_eq!(find_mpf_entries(&[0xff, 0xd8, 0x00, 0xe1, 0, 2]), Err(JpegError::CorruptMarker));
    assert_eq!(find_mpf_entries(&[0xff, 0xd8, 0xff, 0xe1, 0, 9]), Err(JpegError::CorruptLength));
    let mut little = vec![0xff, 0xd8];
    let mut mpf = mpf_segment(1, 2);
    mpf[8..10].copy_from_slice(b"II");
    little.extend(mpf);
    assert_eq!(find_mpf_entries(&little), Err(JpegError::UnsupportedByteOrder));
    let mut no_tag = vec![0xff, 0xd8];
    let mut mpf = mpf_segment(1, 2);
    mpf[18] = 0xb0;
    mpf[19] = 0x01;
    no_tag.extend(mpf);
    assert_eq!(find_mpf_entries(&no_tag), Err(JpegError::MpfNotFound));
}

#[test]
fn marking_inserts_gcontainer_xmp_after_exif() {
    let jpeg = ultra_hdr_jpeg();
    let exif_end = 2 + exif_segment().len();
    let marked = mark_jpeg_gainmap(jpeg.clone()).unwrap().unwrap();
    assert!(contains(&marked, b"Item:Semantic=\"GainMap\""));
    assert!(contains(&marked, b"Item:Length=\"500\""));
    assert_eq!(&marked[..exif_end], &jpeg[..exif_end]);
    assert_eq!(&marked[exif_end..exif_end + 2], &[0xff, 0xe1]);
    let segment_len = 2 + u16::from_be_bytes([marked[exif_end + 2], marked[exif_end + 3]]) as usize;
    assert_eq!(marked.len(), jpeg.len() + segment_len);
    let (mpf, entries, _) = find_mpf_entries(&marked).unwrap();
    assert_eq!(mpf, exif_end + segment_len);
    assert_eq!(read_be_u32(&marked, entries + 4), Ok(1000 + segment_len as u32));
    assert_eq!(read_be_u32(&marked, entries + 20), Ok(500));
    assert_eq!(mark_jpeg_gainmap(marked), Ok(None));
}

#[test]
fn marking_without_exif_inserts_after_the_start_marker() {
    let mut jpeg = vec![0xff, 0xd8];
    jpeg.extend(mpf_segment(10, 20));
    let marked = mark_jpeg_gainmap(jpeg.clone()).unwrap().unwrap();
    assert_eq!(&marked[2..4], &[0xff, 0xe1]);
    assert!(marked[6..].starts_with(b"http://ns.adobe.com/xap/1.0/\0"));
}

#[test]
fn marking_refuses_unusable_files() {
    let mut overflow = vec![0xff, 0xd8];
    overflow.extend(mpf_segment(u32::MAX - 10, 20));
    assert_eq!(mark_jpeg_gainmap(overflow), Err(JpegError::SizeOverflow));
    assert_eq!(mark_jpeg_gainmap(vec![0, 1, 2]), Err(JpegError::NotJpeg));
    assert_eq!(mark_jpeg_gainmap(vec![0xff, 0xd8, 0xff, 0xd9]), Err(JpegError::MpfNotFound));
    let mut short = vec![0xff, 0xd8];
    short.extend(mpf_segment(1, 2));
    short.truncate(short.len() - 30);
    let length = (short.len() - 4) as u16;
    short[4..6].copy_from_slice(&length.to_be_bytes());
    assert_eq!(mark_jpeg_gainmap(short), Err(JpegError::OutOfBounds));
}

#[test]
fn exif_behind_an_entryless_mpf_still_comes_first() {
    let mut jpeg = vec![0xff, 0xd8];
    let mut empty_mpf = mpf_segment(1, 2);
    empty_mpf[18] = 0;
    jpeg.extend(empty_mpf.clone());
    jpeg.extend(exif_segment());
    jpeg.extend(mpf_segment(10, 20));
    let exif_end = 2 + empty_mpf.len() + exif_segment().len();
    let marked = mark_jpeg_gainmap(jpeg.clone()).unwrap().unwrap();
    assert_eq!(&marked[..exif_end], &jpeg[..exif_end]);
    assert_eq!(&marked[exif_end..exif_end + 2], &[0xff, 0xe1]);
}

#[test]
fn exif_is_found_behind_an_xmp_segment() {
    let mut jpeg = vec![0xff, 0xd8];
    jpeg.extend(segment(0xe1, b"http://ns.adobe.com/xap/1.0/\0<x/>"));
    jpeg.extend(exif_segment());
    jpeg.extend_from_slice(&[0xff, 0xd9]);
    let minimal = exif_app1_jpeg(&jpeg).unwrap();
    let mut expected = vec![0xff, 0xd8];
    expected.extend(exif_segment());
    assert_eq!(minimal, expected);
    assert!(!matches!(read_exif_from_jpeg_app1(&jpeg), Err(ExifReadError::Jpeg(_))));
}

#[test]
fn exif_search_reports_missing_exif() {
    assert_eq!(exif_app1_jpeg(&[0xff, 0xd8, 0xff, 0xd9]), Err(JpegError::ExifNotFound));
    assert_eq!(exif_app1_jpeg(&[1, 2]), Err(JpegError::NotJpeg));
    assert!(matches!(
        read_exif_from_jpeg_app1(&[0xff, 0xd8, 0xff, 0xd9]),
        Err(ExifReadError::Jpeg(JpegError::ExifNotFound))
    ));
}

#[test]
fn marking_moves_the_mpf_segment_and_gain_map_unchanged_but_for_the_primary_size() {
    let jpeg = ultra_hdr_jpeg();
    let (_, entries, _) = find_mpf_entries(&jpeg).unwrap();
    let exif_end = 2 + exif_segment().len();
    let marked = mark_jpeg_gainmap(jpeg.clone()).unwrap().unwrap();
    let growth = marked.len() - jpeg.len();
    for k in exif_end..jpeg.len() {
        if !(entries + 4..entries + 8).contains(&k) {
            assert_eq!(marked[k + growth], jpeg[k], "byte {k}");
        }
    }
}

#[test]
fn entries_count_from_the_tiff_header_of_a_short_mpf_segment() {
    let jpeg = [
        0xff, 0xd8, 0xff, 0xe2, 0x00, 0x1c, b'M', b'P', b'F', 0, b'M', b'M', 0, 0x2a, 0, 0, 0, 8,
        0, 1, 0xb0, 0x02, 0, 7, 0, 0, 0, 0x10, 0, 0, 0, 0x32,
    ];
    assert_eq!(find_mpf_entries(&jpeg), Ok((2, 60, None)));
    // The entries lie past the end of this file, so marking it reports that.
    assert_eq!(mark_jpeg_gainmap(jpeg.to_vec()), Err(JpegError::OutOfBounds));
}
