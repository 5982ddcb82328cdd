//! Verified extraction of GPS metadata from EXIF tag containers.
//!
//! The library decodes the raw GPS tag encodings found in image files'
//! EXIF data (rational numbers, hemisphere reference strings, reference
//! bytes) into exact signed decimal-degree values, a signed altitude and
//! a formatted timestamp, assembled into a record of independent optional
//! fields.  Parsing of the EXIF container itself is delegated to an
//! outside library behind a small set of trusted accessors.

pub mod convert;
pub mod digits;
pub mod record;
pub mod tags;
