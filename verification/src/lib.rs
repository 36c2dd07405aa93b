//! Identification of the container format of an in-memory image buffer
//! (JPEG or TIFF) and, for JPEG buffers, location of the byte range that
//! holds the embedded TIFF-encoded metadata block (EXIF).

pub mod hex;
pub mod image;
pub mod types;
