use exif_scan::image::{detect_type, find_embedded_tiff_in_jpeg, FileType};
use exif_scan::types::ExifError;

fn err(msg: &str) -> ExifError {
    ExifError::JpegWithoutExif(msg.to_string())
}

#[test]
fn detect_empty_buffer_unknown() {
    assert_eq!(detect_type(&[]), FileType::Unknown);
}

#[test]
fn detect_short_buffer_unknown() {
    // One byte short of the 11 every signature needs, even with a JFIF prefix.
    let buf = [0xff, 0xd8, 0xff, 0xe0, 0x00, 0x10, 0x4a, 0x46, 0x49, 0x46];
    assert_eq!(buf.len(), 10);
    assert_eq!(detect_type(&buf), FileType::Unknown);
}

#[test]
fn detect_jfif_jpeg() {
    let buf = [0xff, 0xd8, 0xff, 0xe0, 0x00, 0x10, 0x4a, 0x46, 0x49, 0x46, 0x00, 0x01];
    assert_eq!(detect_type(&buf), FileType::JPEG);
}

#[test]
fn detect_exif_jpeg() {
    let buf = [0xff, 0xd8, 0xff, 0xe1, 0x00, 0x10, 0x45, 0x78, 0x69, 0x66, 0x00, 0x01];
    assert_eq!(detect_type(&buf), FileType::JPEG);
}

#[test]
fn detect_jpeg_ignores_marker_length_byte() {
    // Byte 3 is not diagnostic and may hold anything.
    let buf = [0xff, 0xd8, 0xff, 0x77, 0x12, 0x34, 0x4a, 0x46, 0x49, 0x46, 0x00];
    assert_eq!(detect_type(&buf), FileType::JPEG);
}

#[test]
fn detect_tiff_little_endian() {
    let buf = [0x49, 0x49, 42, 0, 8, 0, 0, 0, 1, 2, 3];
    assert_eq!(detect_type(&buf), FileType::TIFF);
}

#[test]
fn detect_tiff_big_endian() {
    let buf = [0x4d, 0x4d, 0, 42, 0, 0, 0, 8, 1, 2, 3];
    assert_eq!(detect_type(&buf), FileType::TIFF);
}

#[test]
fn detect_bare_tiff_magic_too_short() {
    // The 4-byte magic alone is below the 11-byte floor.
    assert_eq!(detect_type(&[0x49, 0x49, 42, 0]), FileType::Unknown);
    assert_eq!(detect_type(&[0x4d, 0x4d, 0, 42]), FileType::Unknown);
}

#[test]
fn detect_garbage_unknown() {
    let buf = [0u8; 32];
    assert_eq!(detect_type(&buf), FileType::Unknown);
}

#[test]
fn detect_is_idempotent() {
    let buf = [0xff, 0xd8, 0xff, 0xe0, 0x00, 0x10, 0x4a, 0x46, 0x49, 0x46, 0x00];
    assert_eq!(detect_type(&buf), detect_type(&buf));
}

#[test]
fn scan_single_app1_returns_payload_range() {
    // SOI + one APP1 segment: size 8 + 5, Exif preamble, 5 payload bytes.
    let buf = [
        0xff, 0xd8, // SOI
        0xff, 0xe1, // APP1
        0x00, 0x0d, // size = 13 = 2 (size word) + 6 (preamble) + 5 (payload)
        0x45, 0x78, 0x69, 0x66, 0x00, 0x00, // "Exif\0\0"
        0x01, 0x02, 0x03, 0x04, 0x05, // payload
    ];
    let r = find_embedded_tiff_in_jpeg(&buf);
    assert_eq!(r, Ok((12, 5)));
    let (offset, length) = r.unwrap();
    assert_eq!(&buf[offset..offset + length], &[0x01, 0x02, 0x03, 0x04, 0x05]);
}

#[test]
fn scan_minimal_app1_empty_payload() {
    let buf = [0xff, 0xd8, 0xff, 0xe1, 0x00, 0x08, 0x45, 0x78, 0x69, 0x66, 0x00, 0x00];
    assert_eq!(find_embedded_tiff_in_jpeg(&buf), Ok((12, 0)));
}

#[test]
fn scan_corrupt_preamble() {
    // "Exix\0\0" in place of "Exif\0\0".
    let buf = [
        0xff, 0xd8, 0xff, 0xe1, 0x00, 0x0d, 0x45, 0x78, 0x69, 0x78, 0x00, 0x00, 0x01, 0x02, 0x03,
        0x04, 0x05,
    ];
    assert_eq!(find_embedded_tiff_in_jpeg(&buf), Err(err("EXIF preamble unrecognized")));
}

#[test]
fn scan_preamble_truncated() {
    // An APP1 segment too small to hold the 6-byte preamble.
    let buf = [0xff, 0xd8, 0xff, 0xe1, 0x00, 0x06, 0x45, 0x78, 0x69, 0x66];
    assert_eq!(find_embedded_tiff_in_jpeg(&buf), Err(err("EXIF preamble truncated")));
}

#[test]
fn scan_sos_without_app1() {
    // A well-sized start-of-scan segment with no APP1 before it.
    let buf = [0xff, 0xd8, 0xff, 0xda, 0x00, 0x02];
    assert_eq!(find_embedded_tiff_in_jpeg(&buf), Err(err("Last mark found and no EXIF")));
}

#[test]
fn scan_truncated_in_marker_header() {
    // The size field is cut off: fewer than 4 bytes remain after SOI.
    let buf = [0xff, 0xd8, 0xff, 0xe0, 0x00];
    assert_eq!(find_embedded_tiff_in_jpeg(&buf), Err(err("JPEG truncated in marker header")));
}

#[test]
fn scan_truncated_in_marker_body() {
    // The size field promises 16 bytes; only one follows it.
    let buf = [0xff, 0xd8, 0xff, 0xe0, 0x00, 0x10, 0xaa];
    assert_eq!(find_embedded_tiff_in_jpeg(&buf), Err(err("JPEG truncated in marker body")));
}

#[test]
fn scan_size_too_small() {
    // A segment size below 2 cannot cover its own size word.
    let buf = [0xff, 0xd8, 0xff, 0xe0, 0x00, 0x01];
    assert_eq!(
        find_embedded_tiff_in_jpeg(&buf),
        Err(err("JPEG marker size must be at least 2 (because of the size word)"))
    );
}

#[test]
fn scan_invalid_marker() {
    let buf = [0xff, 0xd8, 0x12, 0x34, 0x00, 0x00];
    assert_eq!(find_embedded_tiff_in_jpeg(&buf), Err(err("Invalid marker 1234")));
}

#[test]
fn scan_invalid_marker_short_hex() {
    // The hex rendering carries no leading zeros, as the original diagnostics did.
    let buf = [0xff, 0xd8, 0x00, 0xab, 0x00, 0x00];
    assert_eq!(find_embedded_tiff_in_jpeg(&buf), Err(err("Invalid marker ab")));
    let zero = [0xff, 0xd8, 0x00, 0x00, 0x00, 0x00];
    assert_eq!(find_embedded_tiff_in_jpeg(&zero), Err(err("Invalid marker 0")));
}

#[test]
fn scan_skips_other_segments() {
    // SOI + APP0 (skipped as an opaque segment) + APP1 with 3 payload bytes.
    let buf = [
        0xff, 0xd8, // SOI
        0xff, 0xe0, 0x00, 0x04, 0xaa, 0xbb, // APP0, size 4
        0xff, 0xe1, 0x00, 0x0b, // APP1, size 11
        0x45, 0x78, 0x69, 0x66, 0x00, 0x00, // "Exif\0\0"
        0x01, 0x02, 0x03, // payload
    ];
    assert_eq!(find_embedded_tiff_in_jpeg(&buf), Ok((18, 3)));
}

#[test]
fn scan_first_app1_wins() {
    // Two preamble-bearing APP1 segments: only the first is honored.
    let buf = [
        0xff, 0xd8, // SOI
        0xff, 0xe1, 0x00, 0x0a, // first APP1, size 10
        0x45, 0x78, 0x69, 0x66, 0x00, 0x00, // "Exif\0\0"
        0x11, 0x22, // payload of the first segment
        0xff, 0xe1, 0x00, 0x08, // second APP1, size 8
        0x45, 0x78, 0x69, 0x66, 0x00, 0x00, // "Exif\0\0"
    ];
    assert_eq!(find_embedded_tiff_in_jpeg(&buf), Ok((12, 2)));
}

#[test]
fn scan_past_eof() {
    // Nothing but the SOI marker: the cursor starts at the end of the buffer.
    let buf = [0xff, 0xd8];
    assert_eq!(find_embedded_tiff_in_jpeg(&buf), Err(err("Scan past EOF and no EXIF found")));
}

#[test]
fn scan_is_idempotent() {
    let found = [0xff, 0xd8, 0xff, 0xe1, 0x00, 0x08, 0x45, 0x78, 0x69, 0x66, 0x00, 0x00];
    assert_eq!(find_embedded_tiff_in_jpeg(&found), find_embedded_tiff_in_jpeg(&found));
    let failed = [0xff, 0xd8, 0xff, 0xda, 0x00, 0x02];
    assert_eq!(find_embedded_tiff_in_jpeg(&failed), find_embedded_tiff_in_jpeg(&failed));
}

#[test]
fn detect_then_scan_workflow() {
    // The caller's two-step flow: classify, then locate and slice.
    let buf = [
        0xff, 0xd8, 0xff, 0xe1, 0x00, 0x10, 0x45, 0x78, 0x69, 0x66, 0x00, 0x00, // APP1, size 16
        0x49, 0x49, 42, 0, 8, 0, 0, 0, // a TIFF header as the payload
    ];
    assert_eq!(detect_type(&buf), FileType::JPEG);
    let (offset, length) = find_embedded_tiff_in_jpeg(&buf).unwrap();
    assert_eq!((offset, length), (12, 8));
    assert_eq!(&buf[offset..offset + length], &[0x49, 0x49, 42, 0, 8, 0, 0, 0]);
}
