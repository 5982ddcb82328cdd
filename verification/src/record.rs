//! Extraction and assembly of the GPS metadata record.
//!
//! Each field of the record is pulled independently from the parsed EXIF
//! container: the coordinate pair (all-or-nothing over its four tags),
//! the signed altitude, and the formatted timestamp.  The contracts pin
//! every field as a function of the container's named tag contents, so
//! two extractions from the same container always agree.

use vstd::prelude::*;
use crate::convert::SignedDecimal;
use crate::convert::convert_to_decimal_degree;
use crate::convert::spec_convert;
use crate::digits::format_time_of_day;
use crate::digits::time_of_day_str;
use crate::tags::GPS_ALTITUDE;
use crate::tags::GPS_ALTITUDE_REF;
use crate::tags::GPS_DATE_STAMP;
use crate::tags::GPS_LATITUDE;
use crate::tags::GPS_LATITUDE_REF;
use crate::tags::GPS_LONGITUDE;
use crate::tags::GPS_LONGITUDE_REF;
use crate::tags::GPS_TIME_STAMP;
use crate::tags::ascii_in;
use crate::tags::byte_in;
use crate::tags::get_gps_byte;
use crate::tags::get_gps_rational;
use crate::tags::get_gps_ref;
use crate::tags::rationals_in;

verus! {

/// The assembled GPS metadata of one image: four independent optional
/// fields.  Latitude and longitude are only ever populated as a pair.
#[derive(Debug, PartialEq)]
pub struct GpsRecord {
    pub latitude: Option<SignedDecimal>,
    pub longitude: Option<SignedDecimal>,
    pub altitude: Option<SignedDecimal>,
    pub timestamp: Option<String>,
}

/// The mathematical content of a record: its four fields, with the
/// timestamp abstracted to its character sequence.
pub open spec fn record_abs(r: GpsRecord) -> (
    Option<SignedDecimal>,
    Option<SignedDecimal>,
    Option<SignedDecimal>,
    Option<Seq<char>>,
) {
    (
        r.latitude,
        r.longitude,
        r.altitude,
        match r.timestamp {
            Some(s) => Some(s@),
            None => None,
        },
    )
}

/// A rational truncated toward zero to an unsigned integer; a zero
/// denominator with a nonzero numerator saturates, and 0/0 counts as 0.
pub open spec fn spec_trunc(p: (u32, u32)) -> u32 {
    if p.1 == 0 {
        if p.0 == 0 {
            0
        } else {
            u32::MAX
        }
    } else {
        ((p.0 as nat) / (p.1 as nat)) as u32
    }
}

/// Truncates a rational toward zero to a whole unsigned integer.
pub fn rational_trunc(p: (u32, u32)) -> (r: u32)
    ensures
        r == spec_trunc(p),
{
    if p.1 == 0 {
        if p.0 == 0 {
            0
        } else {
            u32::MAX
        }
    } else {
        p.0 / p.1
    }
}

/// Whether an optional altitude reference byte denotes "below sea
/// level": absent defaults to above sea level.
pub open spec fn alt_ref_negative(b: Option<u8>) -> bool {
    match b {
        Some(x) => x != 0,
        None => false,
    }
}

/// The altitude the container yields: the first rational stored under
/// the altitude tag, signed by the altitude reference byte; absent when
/// the tag is missing, not rational-encoded, or empty.
pub open spec fn spec_altitude(e: exif::Exif) -> Option<SignedDecimal> {
    match rationals_in(e, GPS_ALTITUDE) {
        Some(v) => if v.len() > 0 {
            Some(
                SignedDecimal {
                    neg: alt_ref_negative(byte_in(e, GPS_ALTITUDE_REF)),
                    num: v[0].0 as u128,
                    den: v[0].1 as u128,
                },
            )
        } else {
            None
        },
        None => None,
    }
}

/// The timestamp display the container yields: the three time rationals
/// truncated to whole hours, minutes and seconds and zero-padded, with
/// the date string prefixed when present; absent unless the time tag
/// holds exactly three rationals.
pub open spec fn spec_timestamp(e: exif::Exif) -> Option<Seq<char>> {
    match rationals_in(e, GPS_TIME_STAMP) {
        Some(t) => if t.len() == 3 {
            Some(
                match ascii_in(e, GPS_DATE_STAMP) {
                    Some(date) => date + seq![' '] + time_of_day_str(
                        spec_trunc(t[0]),
                        spec_trunc(t[1]),
                        spec_trunc(t[2]),
                    ),
                    None => time_of_day_str(spec_trunc(t[0]), spec_trunc(t[1]), spec_trunc(t[2])),
                },
            )
        } else {
            None
        },
        None => None,
    }
}

/// The coordinate pair the container yields: present exactly when all
/// four of the latitude rationals, latitude reference, longitude
/// rationals and longitude reference are present, each value converted
/// to exact signed decimal degrees.
pub open spec fn spec_coordinates(e: exif::Exif) -> Option<(SignedDecimal, SignedDecimal)> {
    match (
        rationals_in(e, GPS_LATITUDE),
        ascii_in(e, GPS_LATITUDE_REF),
        rationals_in(e, GPS_LONGITUDE),
        ascii_in(e, GPS_LONGITUDE_REF),
    ) {
        (Some(lat), Some(lat_ref), Some(lon), Some(lon_ref)) => Some(
            (spec_convert(lat, lat_ref), spec_convert(lon, lon_ref)),
        ),
        _ => None,
    }
}

/// The record the container yields, as the mathematical content of its
/// four fields.
pub open spec fn spec_record(e: exif::Exif) -> (
    Option<SignedDecimal>,
    Option<SignedDecimal>,
    Option<SignedDecimal>,
    Option<Seq<char>>,
) {
    (
        match spec_coordinates(e) {
            Some(c) => Some(c.0),
            None => None,
        },
        match spec_coordinates(e) {
            Some(c) => Some(c.1),
            None => None,
        },
        spec_altitude(e),
        spec_timestamp(e),
    )
}

/// Extracts the signed altitude in meters, if the altitude tag holds at
/// least one rational.
pub fn get_gps_altitude(e: &exif::Exif) -> (r: Option<SignedDecimal>)
    ensures
        r == spec_altitude(*e),
{
    let altitude = match get_gps_rational(e, GPS_ALTITUDE) {
        Some(v) => v,
        None => {
            return None;
        },
    };
    if altitude.len() == 0 {
        return None;
    }
    let below = match get_gps_byte(e, GPS_ALTITUDE_REF) {
        Some(b) => b != 0,
        None => false,
    };
    let (num, den) = altitude[0];
    Some(SignedDecimal { neg: below, num: num as u128, den: den as u128 })
}

/// Extracts the timestamp display string, if the time tag holds exactly
/// three rationals; the date string is prefixed when present.
pub fn get_gps_timestamp(e: &exif::Exif) -> (r: Option<String>)
    ensures
        match r {
            Some(s) => spec_timestamp(*e) == Some(s@),
            None => spec_timestamp(*e) is None,
        },
{
    let time = match get_gps_rational(e, GPS_TIME_STAMP) {
        Some(t) => t,
        None => {
            return None;
        },
    };
    if time.len() != 3 {
        return None;
    }
    let hour = rational_trunc(time[0]);
    let minute = rational_trunc(time[1]);
    let second = rational_trunc(time[2]);
    let time_of_day = format_time_of_day(hour, minute, second);
    match get_gps_ref(e, GPS_DATE_STAMP) {
        Some(date) => {
            let mut out = date;
            let space: &'static str = " ";
            proof {
                reveal_strlit(" ");
                assert(space@ =~= seq![' ']);
            }
            out.append(space);
            out.append(time_of_day.as_str());
            proof {
                assert(spec_timestamp(*e) == Some(out@));
            }
            Some(out)
        },
        None => Some(time_of_day),
    }
}

/// Extracts the decimal-degree coordinate pair.  All four coordinate
/// tags must be present; if any one is missing the extraction is
/// all-or-nothing and yields no coordinate at all.
pub fn get_gps_coordinates(e: &exif::Exif) -> (r: Option<(SignedDecimal, SignedDecimal)>)
    ensures
        r == spec_coordinates(*e),
{
    let lat = get_gps_rational(e, GPS_LATITUDE);
    let lat_ref = get_gps_ref(e, GPS_LATITUDE_REF);
    let lon = get_gps_rational(e, GPS_LONGITUDE);
    let lon_ref = get_gps_ref(e, GPS_LONGITUDE_REF);
    match (lat, lat_ref, lon, lon_ref) {
        (Some(lat), Some(lat_ref), Some(lon), Some(lon_ref)) => Some(
            (
                convert_to_decimal_degree(&lat, &lat_ref),
                convert_to_decimal_degree(&lon, &lon_ref),
            ),
        ),
        _ => None,
    }
}

/// Assembles the GPS record of a parsed EXIF container.  Every field is
/// populated independently, and the whole record is a function of the
/// container's tag contents.
pub fn assemble_gps_record(e: &exif::Exif) -> (r: GpsRecord)
    ensures
        record_abs(r) == spec_record(*e),
{
    let (latitude, longitude) = match get_gps_coordinates(e) {
        Some((la, lo)) => (Some(la), Some(lo)),
        None => (None, None),
    };
    let altitude = get_gps_altitude(e);
    let timestamp = get_gps_timestamp(e);
    GpsRecord { latitude, longitude, altitude, timestamp }
}

/// Coordinate extraction is all-or-nothing: the record carries a
/// latitude exactly when it carries a longitude, and it carries both
/// exactly when all four coordinate tags are present in the container.
pub proof fn lemma_coordinates_all_or_nothing(e: exif::Exif)
    ensures
        spec_record(e).0 is Some <==> spec_record(e).1 is Some,
        spec_record(e).0 is Some <==> (rationals_in(e, GPS_LATITUDE) is Some && ascii_in(
            e,
            GPS_LATITUDE_REF,
        ) is Some && rationals_in(e, GPS_LONGITUDE) is Some && ascii_in(
            e,
            GPS_LONGITUDE_REF,
        ) is Some),
{
}

/// Extraction is deterministic: two records assembled from the same
/// unchanged container have identical contents.
pub proof fn lemma_extraction_deterministic(r1: GpsRecord, r2: GpsRecord, e: exif::Exif)
    requires
        record_abs(r1) == spec_record(e),
        record_abs(r2) == spec_record(e),
    ensures
        record_abs(r1) == record_abs(r2),
{
}

/// The altitude's sign follows the reference byte: a zero or absent
/// byte keeps the magnitude positive, any nonzero byte flips it
/// negative.
pub proof fn lemma_altitude_sign(e: exif::Exif)
    ensures
        spec_altitude(e) matches Some(a) ==> a.neg == (byte_in(e, GPS_ALTITUDE_REF) matches Some(b)
            && b != 0),
{
}

} // verus!
