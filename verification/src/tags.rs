//! Trusted accessors over a parsed EXIF container.
//!
//! A parsed container maps tags to encoded values.  The contents this
//! library reads are named by three uninterpreted projections — the
//! rational pairs, the decoded first ASCII component and the first byte
//! stored under a GPS tag — and each accessor's contract relates what it
//! returns to those projections.  Everything downstream is verified
//! against them.

use vstd::prelude::*;

verus! {

/// GPS tag code of the latitude hemisphere reference ("N"/"S").
pub const GPS_LATITUDE_REF: u16 = 1;

/// GPS tag code of the latitude degrees/minutes/seconds rationals.
pub const GPS_LATITUDE: u16 = 2;

/// GPS tag code of the longitude hemisphere reference ("E"/"W").
pub const GPS_LONGITUDE_REF: u16 = 3;

/// GPS tag code of the longitude degrees/minutes/seconds rationals.
pub const GPS_LONGITUDE: u16 = 4;

/// GPS tag code of the altitude reference byte (0 = above sea level).
pub const GPS_ALTITUDE_REF: u16 = 5;

/// GPS tag code of the altitude rational, in meters.
pub const GPS_ALTITUDE: u16 = 6;

/// GPS tag code of the hour/minute/second rationals.
pub const GPS_TIME_STAMP: u16 = 7;

/// GPS tag code of the date string, stored as `YYYY:MM:DD`.
pub const GPS_DATE_STAMP: u16 = 29;

#[verifier::external_type_specification]
#[verifier::external_body]
pub struct ExExif(exif::Exif);

/// The (numerator, denominator) pairs stored under a GPS tag of the
/// container's primary image directory, when the tag is present and
/// rational-encoded; `None` otherwise.
pub uninterp spec fn rationals_in(e: exif::Exif, tag: u16) -> Option<Seq<(u32, u32)>>;

/// The decoded characters of the first ASCII component stored under a
/// GPS tag of the container's primary image directory, when the tag is
/// present, ASCII-encoded with at least one component, and valid UTF-8;
/// `None` otherwise.
pub uninterp spec fn ascii_in(e: exif::Exif, tag: u16) -> Option<Seq<char>>;

/// The first byte stored under a GPS tag of the container's primary
/// image directory, when the tag is present and byte-encoded with at
/// least one byte; `None` otherwise.
pub uninterp spec fn byte_in(e: exif::Exif, tag: u16) -> Option<u8>;

/// Relies on `exif::Exif::get_field` for the GPS-context tag in the
/// primary image directory: returns the field's rational pairs exactly
/// when it is present and rational-encoded.
#[verifier::external_body]
pub(crate) fn get_gps_rational(e: &exif::Exif, tag: u16) -> (r: Option<Vec<(u32, u32)>>)
    ensures
        match r {
            Some(v) => rationals_in(*e, tag) == Some(v@),
            None => rationals_in(*e, tag) is None,
        },
{
    if let Some(field) = e.get_field(exif::Tag(exif::Context::Gps, tag), exif::In::PRIMARY) {
        if let exif::Value::Rational(rationals) = &field.value {
            return Some(rationals.iter().map(|q| (q.num, q.denom)).collect());
        }
    }
    None
}

/// Relies on `exif::Exif::get_field` for the GPS-context tag in the
/// primary image directory, and on `std::str::from_utf8`: returns the
/// decoded first ASCII component exactly when the field is present,
/// ASCII-encoded with at least one component, and valid UTF-8.
#[verifier::external_body]
pub(crate) fn get_gps_ref(e: &exif::Exif, tag: u16) -> (r: Option<String>)
    ensures
        match r {
            Some(s) => ascii_in(*e, tag) == Some(s@),
            None => ascii_in(*e, tag) is None,
        },
{
    if let Some(field) = e.get_field(exif::Tag(exif::Context::Gps, tag), exif::In::PRIMARY) {
        if let exif::Value::Ascii(components) = &field.value {
            if let Some(first) = components.first() {
                return std::str::from_utf8(first).ok().map(|s| s.to_string());
            }
        }
    }
    None
}

/// Relies on `exif::Exif::get_field` for the GPS-context tag in the
/// primary image directory: returns the field's first byte exactly when
/// it is present and byte-encoded with at least one byte.
#[verifier::external_body]
pub(crate) fn get_gps_byte(e: &exif::Exif, tag: u16) -> (r: Option<u8>)
    ensures
        match r {
            Some(b) => byte_in(*e, tag) == Some(b),
            None => byte_in(*e, tag) is None,
        },
{
    if let Some(field) = e.get_field(exif::Tag(exif::Context::Gps, tag), exif::In::PRIMARY) {
        if let exif::Value::Byte(bytes) = &field.value {
            return bytes.first().copied();
        }
    }
    None
}

} // verus!
