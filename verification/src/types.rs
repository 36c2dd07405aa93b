use vstd::prelude::*;

verus! {

/// Failure value for the JPEG metadata scan. Every failure mode funnels
/// through the single variant, carrying a human-readable diagnostic message
/// that callers surface but never parse.
#[derive(Debug, PartialEq, Eq)]
pub enum ExifError {
    JpegWithoutExif(String),
}

} // verus!
