use exif_gps::convert::SignedDecimal;
use exif_gps::convert::convert_to_decimal_degree;
use exif_gps::convert::is_south_or_west;
use exif_gps::digits::format_time_of_day;
use exif_gps::record::rational_trunc;

fn value_of(d: &SignedDecimal) -> f64 {
    let v = d.num as f64 / d.den as f64;
    if d.neg { -v } else { v }
}

#[test]
fn zero_components_north_yields_zero() {
    let c = vec![(0u32, 1u32), (0, 1), (0, 1)];
    let r = convert_to_decimal_degree(&c, &"N".to_string());
    assert!(!r.neg);
    assert_eq!(r.num, 0);
    assert_eq!(r.den, 3600);
    assert_eq!(value_of(&r), 0.0);
}

#[test]
fn zero_components_south_yields_negative_zero() {
    let c = vec![(0u32, 1u32), (0, 1), (0, 1)];
    let r = convert_to_decimal_degree(&c, &"S".to_string());
    assert!(r.neg);
    let v = value_of(&r);
    assert_eq!(v, 0.0);
    assert!(v.is_sign_negative());
}

#[test]
fn forty_degrees_north() {
    let c = vec![(40u32, 1u32), (26, 1), (46, 1)];
    let r = convert_to_decimal_degree(&c, &"N".to_string());
    assert!(!r.neg);
    assert_eq!(r.num, 145606);
    assert_eq!(r.den, 3600);
    let expected = 40.0 + 26.0 / 60.0 + 46.0 / 3600.0;
    assert!((value_of(&r) - expected).abs() < 1e-12);
    assert!((value_of(&r) - 40.4461).abs() < 1e-4);
}

#[test]
fn south_negates_the_north_value() {
    let c = vec![(40u32, 1u32), (26, 1), (46, 1)];
    let n = convert_to_decimal_degree(&c, &"N".to_string());
    let s = convert_to_decimal_degree(&c, &"S".to_string());
    assert_eq!(s.num, n.num);
    assert_eq!(s.den, n.den);
    assert!(s.neg && !n.neg);
    assert_eq!(value_of(&s), -value_of(&n));
}

#[test]
fn west_is_negative_east_is_positive() {
    let c = vec![(79u32, 1u32), (58, 1), (56, 1)];
    let w = convert_to_decimal_degree(&c, &"W".to_string());
    let e = convert_to_decimal_degree(&c, &"E".to_string());
    assert!(w.neg);
    assert!(!e.neg);
    assert_eq!(w.num, 287936);
    assert_eq!(w.den, 3600);
}

#[test]
fn wrong_arity_yields_exactly_zero() {
    let two = vec![(12u32, 1u32), (34, 1)];
    let four = vec![(12u32, 1u32), (34, 1), (56, 1), (78, 1)];
    for c in [two, four] {
        for reference in ["N", "S", "E", "W"] {
            let r = convert_to_decimal_degree(&c, &reference.to_string());
            assert!(!r.neg);
            assert_eq!(r.num, 0);
            assert_eq!(r.den, 1);
            assert_eq!(value_of(&r), 0.0);
        }
    }
}

#[test]
fn empty_components_yield_exactly_zero() {
    let r = convert_to_decimal_degree(&Vec::new(), &"S".to_string());
    assert_eq!((r.neg, r.num, r.den), (false, 0, 1));
}

#[test]
fn reference_detection() {
    assert!(is_south_or_west(&"S".to_string()));
    assert!(is_south_or_west(&"W".to_string()));
    assert!(!is_south_or_west(&"N".to_string()));
    assert!(!is_south_or_west(&"E".to_string()));
    assert!(!is_south_or_west(&"SW".to_string()));
    assert!(!is_south_or_west(&"".to_string()));
}

#[test]
fn time_of_day_is_zero_padded() {
    assert_eq!(format_time_of_day(5, 3, 9), "05:03:09");
    assert_eq!(format_time_of_day(23, 59, 58), "23:59:58");
    assert_eq!(format_time_of_day(0, 0, 0), "00:00:00");
    assert_eq!(format_time_of_day(100, 0, 7), "100:00:07");
}

#[test]
fn rational_truncation() {
    assert_eq!(rational_trunc((7, 2)), 3);
    assert_eq!(rational_trunc((9, 3)), 3);
    assert_eq!(rational_trunc((1, 3)), 0);
    assert_eq!(rational_trunc((5, 0)), u32::MAX);
    assert_eq!(rational_trunc((0, 0)), 0);
}

#[test]
fn division_by_zero_denominator_maps_to_infinite_float() {
    let c = vec![(1u32, 0u32), (0, 1), (0, 1)];
    let r = convert_to_decimal_degree(&c, &"N".to_string());
    assert_eq!(r.den, 0);
    assert!(value_of(&r).is_infinite());
}
