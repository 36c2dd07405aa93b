use crate::hex::{hex_u16, spec_hex};
use crate::types::ExifError;
use vstd::prelude::*;
use vstd::string::StringExecFns;

verus! {

/// Classification of an image buffer by its leading signature bytes.
#[derive(Clone, Copy, Debug, PartialEq, Eq, Structural)]
pub enum FileType {
    Unknown,
    JPEG,
    TIFF,
}

/// The buffer opens with the JPEG start-of-image bytes `FF D8 FF` and
/// carries the ASCII tag `JFIF` at offset 6, terminated by a zero byte.
/// Byte 3 (the marker-length high byte) is deliberately not inspected.
pub open spec fn jfif_signature(s: Seq<u8>) -> bool {
    &&& s.len() >= 11
    &&& s[0] == 0xff && s[1] == 0xd8 && s[2] == 0xff
    &&& s[6] == 0x4a && s[7] == 0x46 && s[8] == 0x49 && s[9] == 0x46
    &&& s[10] == 0
}

/// The buffer opens with the JPEG start-of-image bytes `FF D8 FF` and
/// carries the ASCII tag `Exif` at offset 6, terminated by a zero byte.
pub open spec fn exif_jpeg_signature(s: Seq<u8>) -> bool {
    &&& s.len() >= 11
    &&& s[0] == 0xff && s[1] == 0xd8 && s[2] == 0xff
    &&& s[6] == 0x45 && s[7] == 0x78 && s[8] == 0x69 && s[9] == 0x66
    &&& s[10] == 0
}

/// The buffer opens with the little-endian TIFF magic `II` 42 0. The length
/// floor matches the classifier, which demands 11 bytes for every signature.
pub open spec fn tiff_le_signature(s: Seq<u8>) -> bool {
    &&& s.len() >= 11
    &&& s[0] == 0x49 && s[1] == 0x49 && s[2] == 42 && s[3] == 0
}

/// The buffer opens with the big-endian TIFF magic `MM` 0 42. The length
/// floor matches the classifier, which demands 11 bytes for every signature.
pub open spec fn tiff_be_signature(s: Seq<u8>) -> bool {
    &&& s.len() >= 11
    &&& s[0] == 0x4d && s[1] == 0x4d && s[2] == 0 && s[3] == 42
}

/// The classification of a buffer: `JPEG` or `TIFF` when one of the four
/// signatures matches, `Unknown` otherwise.
pub open spec fn spec_detect(s: Seq<u8>) -> FileType {
    if jfif_signature(s) || exif_jpeg_signature(s) {
        FileType::JPEG
    } else if tiff_le_signature(s) || tiff_be_signature(s) {
        FileType::TIFF
    } else {
        FileType::Unknown
    }
}

/// Detect the type of an image contained in a byte buffer. Total: a buffer
/// that matches no signature (in particular, any buffer shorter than 11
/// bytes) classifies as `Unknown` rather than failing.
pub fn detect_type(contents: &[u8]) -> (t: FileType)
    ensures
        t == spec_detect(contents@),
{
    if contents.len() < 11 {
        return FileType::Unknown;
    }
    if contents[0] == 0xff && contents[1] == 0xd8 && contents[2] == 0xff && contents[6] == 0x4a
        && contents[7] == 0x46 && contents[8] == 0x49 && contents[9] == 0x46 && contents[10] == 0 {
        return FileType::JPEG;
    }
    if contents[0] == 0xff && contents[1] == 0xd8 && contents[2] == 0xff && contents[6] == 0x45
        && contents[7] == 0x78 && contents[8] == 0x69 && contents[9] == 0x66 && contents[10] == 0 {
        return FileType::JPEG;
    }
    if contents[0] == 0x49 && contents[1] == 0x49 && contents[2] == 42 && contents[3] == 0 {
        // TIFF little-endian
        return FileType::TIFF;
    }
    if contents[0] == 0x4d && contents[1] == 0x4d && contents[2] == 0 && contents[3] == 42 {
        // TIFF big-endian
        return FileType::TIFF;
    }
    FileType::Unknown
}

/// The ways the marker walk can end without locating the metadata block,
/// one per diagnostic the scanner emits. `InvalidMarker` carries the 16-bit
/// value that was read where a marker code was expected.
pub enum ScanFailure {
    TruncatedHeader,
    InvalidMarker(u16),
    SizeTooSmall,
    TruncatedBody,
    PreambleTruncated,
    PreambleMismatch,
    ScanMarkerReached,
    PastEnd,
}

/// Outcome of the marker walk: the offset and length of the embedded TIFF
/// block, or the failure that ended the walk.
pub enum ScanOutcome {
    Located(int, int),
    Failed(ScanFailure),
}

/// The 16-bit big-endian value held at bytes `i` and `i + 1`.
pub open spec fn be16_at(s: Seq<u8>, i: int) -> int
    recommends
        0 <= i,
        i + 2 <= s.len(),
{
    s[i] * 256 + s[i + 1]
}

/// Bytes `i .. i + 6` spell the ASCII tag `Exif` followed by two zero bytes,
/// the preamble that introduces the TIFF block inside an APP1 segment.
pub open spec fn exif_preamble_at(s: Seq<u8>, i: int) -> bool
    recommends
        0 <= i,
        i + 6 <= s.len(),
{
    &&& s[i] == 0x45 && s[i + 1] == 0x78 && s[i + 2] == 0x69 && s[i + 3] == 0x66
    &&& s[i + 4] == 0 && s[i + 5] == 0
}

/// The marker walk, started at byte `offset` (a marker-code position). Each
/// step reads a 2-byte marker code and a 2-byte big-endian segment size that
/// counts the size field itself, validates both against the bytes remaining,
/// and then either stops — on the APP1 segment whose preamble introduces the
/// TIFF block, on the start-of-scan marker, or on one of the failure
/// conditions — or skips the segment and goes on at the next marker.
///
/// On `Located(o, l)`, `[o, o + l)` is the TIFF block: the APP1 payload with
/// the 2 size bytes and the 6 preamble bytes excluded.
pub open spec fn spec_scan(s: Seq<u8>, offset: int) -> ScanOutcome
    recommends
        0 <= offset,
    decreases s.len() - offset,
{
    if offset >= s.len() {
        ScanOutcome::Failed(ScanFailure::PastEnd)
    } else if s.len() - offset < 4 {
        ScanOutcome::Failed(ScanFailure::TruncatedHeader)
    } else {
        let marker = be16_at(s, offset);
        if marker < 0xff00 {
            ScanOutcome::Failed(ScanFailure::InvalidMarker(marker as u16))
        } else {
            let size = be16_at(s, offset + 2);
            if size < 2 {
                ScanOutcome::Failed(ScanFailure::SizeTooSmall)
            } else if s.len() - (offset + 2) < size {
                ScanOutcome::Failed(ScanFailure::TruncatedBody)
            } else if marker == 0xffe1 {
                if size < 8 {
                    ScanOutcome::Failed(ScanFailure::PreambleTruncated)
                } else if exif_preamble_at(s, offset + 4) {
                    ScanOutcome::Located(offset + 10, size - 8)
                } else {
                    ScanOutcome::Failed(ScanFailure::PreambleMismatch)
                }
            } else if marker == 0xffda {
                ScanOutcome::Failed(ScanFailure::ScanMarkerReached)
            } else {
                spec_scan(s, offset + 2 + size)
            }
        }
    }
}

/// The diagnostic message that accompanies each scan failure.
pub open spec fn failure_message(f: ScanFailure) -> Seq<char> {
    match f {
        ScanFailure::TruncatedHeader => "JPEG truncated in marker header"@,
        ScanFailure::InvalidMarker(m) => "Invalid marker "@ + spec_hex(m as int),
        ScanFailure::SizeTooSmall => "JPEG marker size must be at least 2 (because of the size word)"@,
        ScanFailure::TruncatedBody => "JPEG truncated in marker body"@,
        ScanFailure::PreambleTruncated => "EXIF preamble truncated"@,
        ScanFailure::PreambleMismatch => "EXIF preamble unrecognized"@,
        ScanFailure::ScanMarkerReached => "Last mark found and no EXIF"@,
        ScanFailure::PastEnd => "Scan past EOF and no EXIF found"@,
    }
}

/// Find the embedded TIFF block in a JPEG image (the block that in turn
/// holds the EXIF data). The walk starts right after the 2-byte
/// start-of-image marker, which the caller's prior classification has
/// already vouched for; it is not re-validated here.
///
/// On success the returned pair `(offset, length)` satisfies
/// `offset + length <= contents.len()`, so the caller may slice the buffer
/// with it directly. On failure the error carries the exact diagnostic of
/// the failure that ended the walk.
pub fn find_embedded_tiff_in_jpeg(contents: &[u8]) -> (r: Result<(usize, usize), ExifError>)
    ensures
        (match r {
            Ok(p) => {
                &&& spec_scan(contents@, 2) == ScanOutcome::Located(p.0 as int, p.1 as int)
                &&& p.0 + p.1 <= contents@.len()
            },
            Err(e) => {
                &&& spec_scan(contents@, 2) matches ScanOutcome::Failed(f)
                &&& e matches ExifError::JpegWithoutExif(m)
                &&& m@ == failure_message(f)
            },
        }),
{
    let mut offset: usize = 2;

    while offset < contents.len()
        invariant
            2 <= offset,
            spec_scan(contents@, 2) == spec_scan(contents@, offset as int),
        decreases contents@.len() - offset,
    {
        if contents.len() - offset < 4 {
            return Err(ExifError::JpegWithoutExif(
                "JPEG truncated in marker header".to_owned(),
            ));
        }

        let marker: u16 = (contents[offset] as u16) * 256 + (contents[offset + 1] as u16);

        if marker < 0xff00 {
            let mut msg = "Invalid marker ".to_owned();
            let digits = hex_u16(marker);
            msg.append(digits.as_str());
            return Err(ExifError::JpegWithoutExif(msg));
        }

        offset += 2;
        let size: usize = (contents[offset] as usize) * 256 + (contents[offset + 1] as usize);

        if size < 2 {
            return Err(ExifError::JpegWithoutExif(
                "JPEG marker size must be at least 2 (because of the size word)".to_owned(),
            ));
        }
        if contents.len() - offset < size {
            return Err(ExifError::JpegWithoutExif(
                "JPEG truncated in marker body".to_owned(),
            ));
        }

        if marker == 0xffe1 {
            if size < 8 {
                return Err(ExifError::JpegWithoutExif("EXIF preamble truncated".to_owned()));
            }

            if !(contents[offset + 2] == 0x45 && contents[offset + 3] == 0x78
                && contents[offset + 4] == 0x69 && contents[offset + 5] == 0x66
                && contents[offset + 6] == 0 && contents[offset + 7] == 0) {
                return Err(ExifError::JpegWithoutExif("EXIF preamble unrecognized".to_owned()));
            }

            // The offset and size of the block, excluding the size word and
            // the `Exif\0\0` preamble.
            return Ok((offset + 8, size - 8));
        }
        if marker == 0xffda {
            // Start of scan: the last marker before entropy-coded image
            // data; no metadata segment may follow it.
            return Err(ExifError::JpegWithoutExif("Last mark found and no EXIF".to_owned()));
        }
        offset += size;
    }

    Err(ExifError::JpegWithoutExif("Scan past EOF and no EXIF found".to_owned()))
}

/// Whatever the walk locates is genuine. The located range `[o, o + l)`
/// lies within the buffer — the hard invariant a caller relies on before
/// slicing — and sits right behind a complete APP1 header: the APP1 marker
/// code, a size word that counts the size word itself plus the preamble
/// plus the range, and the `Exif\0\0` preamble.
pub proof fn lemma_located_range_valid(s: Seq<u8>, offset: int, o: int, l: int)
    requires
        0 <= offset,
        spec_scan(s, offset) == ScanOutcome::Located(o, l),
    ensures
        offset + 10 <= o,
        0 <= l,
        o + l <= s.len(),
        be16_at(s, o - 10) == 0xffe1,
        be16_at(s, o - 8) == l + 8,
        exif_preamble_at(s, o - 6),
    decreases s.len() - offset,
{
    if s.len() - offset >= 4 {
        let marker = be16_at(s, offset);
        let size = be16_at(s, offset + 2);
        if marker >= 0xff00 && size >= 2 && s.len() - (offset + 2) >= size && marker != 0xffe1
            && marker != 0xffda {
            lemma_located_range_valid(s, offset + 2 + size, o, l);
        }
    }
}

/// Every buffer shorter than 11 bytes classifies as `Unknown`: each of the
/// four signatures needs at least 11 bytes to confirm.
pub proof fn lemma_short_buffer_unknown(s: Seq<u8>)
    requires
        s.len() < 11,
    ensures
        spec_detect(s) == FileType::Unknown,
{
}

/// Every buffer that opens `FF D8 FF`, carries either ASCII tag (`JFIF` or
/// `Exif`) at offset 6 and a zero byte at offset 10 classifies as `JPEG`,
/// whatever the remaining bytes hold.
pub proof fn lemma_jpeg_signature_detected(s: Seq<u8>)
    requires
        s.len() >= 11,
        s[0] == 0xff && s[1] == 0xd8 && s[2] == 0xff,
        (s[6] == 0x4a && s[7] == 0x46 && s[8] == 0x49 && s[9] == 0x46) || (s[6] == 0x45 && s[7]
            == 0x78 && s[8] == 0x69 && s[9] == 0x66),
        s[10] == 0,
    ensures
        spec_detect(s) == FileType::JPEG,
{
}

/// Every buffer of at least 11 bytes that opens with either TIFF magic
/// (`II` 42 0 little-endian, or `MM` 0 42 big-endian) classifies as `TIFF`,
/// whatever the remaining bytes hold. The 11-byte floor is the classifier's
/// own: a bare 4-byte magic is too short and classifies as `Unknown`.
pub proof fn lemma_tiff_signature_detected(s: Seq<u8>)
    requires
        s.len() >= 11,
        (s[0] == 0x49 && s[1] == 0x49 && s[2] == 42 && s[3] == 0) || (s[0] == 0x4d && s[1] == 0x4d
            && s[2] == 0 && s[3] == 42),
    ensures
        spec_detect(s) == FileType::TIFF,
{
}

/// A buffer whose first segment after the start-of-image marker is an APP1
/// segment bearing the `Exif\0\0` preamble has its TIFF block located at
/// byte 12 — right after the 2 marker bytes, the 2 size bytes and the
/// 6 preamble bytes — and the reported length excludes all eight of those
/// size-and-preamble bytes, covering exactly the remaining payload.
pub proof fn lemma_leading_app1_located(s: Seq<u8>, size: int)
    requires
        s[0] == 0xff && s[1] == 0xd8,
        s[2] == 0xff && s[3] == 0xe1,
        size == be16_at(s, 4),
        size >= 8,
        4 + size <= s.len(),
        exif_preamble_at(s, 6),
    ensures
        spec_scan(s, 2) == ScanOutcome::Located(12, size - 8),
{
}

/// The same leading APP1 segment with any corrupted preamble — any six
/// bytes other than `Exif\0\0` — makes the scan fail with the preamble
/// diagnostic instead.
pub proof fn lemma_leading_app1_corrupt_preamble(s: Seq<u8>, size: int)
    requires
        s[0] == 0xff && s[1] == 0xd8,
        s[2] == 0xff && s[3] == 0xe1,
        size == be16_at(s, 4),
        size >= 8,
        4 + size <= s.len(),
        !exif_preamble_at(s, 6),
    ensures
        spec_scan(s, 2) == ScanOutcome::Failed(ScanFailure::PreambleMismatch),
{
}

/// A buffer whose first segment after the start-of-image marker is a
/// well-sized start-of-scan segment, with no APP1 segment before it, makes
/// the scan stop there and fail: no metadata marker may follow the start of
/// entropy-coded image data.
pub proof fn lemma_leading_scan_marker_fails(s: Seq<u8>, size: int)
    requires
        s[0] == 0xff && s[1] == 0xd8,
        s[2] == 0xff && s[3] == 0xda,
        size == be16_at(s, 4),
        size >= 2,
        4 + size <= s.len(),
    ensures
        spec_scan(s, 2) == ScanOutcome::Failed(ScanFailure::ScanMarkerReached),
{
}

/// Classification is deterministic: `detect_type` promises a result equal
/// to `spec_detect` of the buffer alone, so any two calls on the same bytes
/// agree.
pub proof fn lemma_detect_deterministic(s: Seq<u8>, t1: FileType, t2: FileType)
    requires
        t1 == spec_detect(s),
        t2 == spec_detect(s),
    ensures
        t1 == t2,
{
}

/// The scan is deterministic: `find_embedded_tiff_in_jpeg` promises an
/// outcome equal to `spec_scan` of the buffer alone, so any two calls on
/// the same bytes agree on the located range or on the failure.
pub proof fn lemma_scan_deterministic(s: Seq<u8>, r1: ScanOutcome, r2: ScanOutcome)
    requires
        r1 == spec_scan(s, 2),
        r2 == spec_scan(s, 2),
    ensures
        r1 == r2,
{
}

} // verus!
