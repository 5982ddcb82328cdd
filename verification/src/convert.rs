//! Exact decimal-degree conversion of sexagesimal GPS rationals.
//!
//! EXIF stores a coordinate as three unsigned rationals (degrees, minutes,
//! seconds) plus a one-letter hemisphere reference.  The conversion
//! `degrees + minutes/60 + seconds/3600` is carried out exactly over a
//! common denominator, so the result is a signed rational whose value is
//! precisely the coordinate; rendering it as a float is left to callers.

use vstd::prelude::*;

verus! {

/// A signed rational magnitude: the value is `num / den`, negated when
/// `neg` is set.  A zero denominator is kept as-is (the EXIF data was
/// malformed); callers rendering the value decide how to surface that.
#[derive(Clone, Copy, Debug, PartialEq, Eq, Structural)]
pub struct SignedDecimal {
    pub neg: bool,
    pub num: u128,
    pub den: u128,
}

/// The numerator of a `SignedDecimal` with the sign applied.
pub open spec fn signed_num(d: SignedDecimal) -> int {
    if d.neg {
        -(d.num as int)
    } else {
        d.num as int
    }
}

/// The neutral result returned when a component sequence does not have
/// exactly three entries.
pub open spec fn zero_decimal() -> SignedDecimal {
    SignedDecimal { neg: false, num: 0, den: 1 }
}

/// Exact numerator of `d + m/60 + s/3600` over the denominator
/// `3600 * d.den * m.den * s.den`, for components given as
/// (numerator, denominator) pairs.
pub open spec fn dms_num(c: Seq<(u32, u32)>) -> int
    recommends
        c.len() == 3,
{
    3600 * (c[0].0 as int) * (c[1].1 as int) * (c[2].1 as int) + 60 * (c[1].0 as int) * (
    c[0].1 as int) * (c[2].1 as int) + (c[2].0 as int) * (c[0].1 as int) * (c[1].1 as int)
}

/// Common denominator of the exact degrees + minutes/60 + seconds/3600 sum.
pub open spec fn dms_den(c: Seq<(u32, u32)>) -> int
    recommends
        c.len() == 3,
{
    3600 * (c[0].1 as int) * (c[1].1 as int) * (c[2].1 as int)
}

/// A hemisphere reference denotes a negative coordinate exactly when it
/// is the single letter "S" (south) or "W" (west).
pub open spec fn is_negative_ref(s: Seq<char>) -> bool {
    s == seq!['S'] || s == seq!['W']
}

/// What the decimal-degree conversion yields: the exact sexagesimal sum
/// signed by the hemisphere reference, or the neutral zero value when the
/// component sequence does not have exactly three entries.
pub open spec fn spec_convert(c: Seq<(u32, u32)>, reference: Seq<char>) -> SignedDecimal {
    if c.len() != 3 {
        zero_decimal()
    } else {
        SignedDecimal {
            neg: is_negative_ref(reference),
            num: dms_num(c) as u128,
            den: dms_den(c) as u128,
        }
    }
}

proof fn lemma_dms_bounds(c: Seq<(u32, u32)>)
    requires
        c.len() == 3,
    ensures
        0 <= dms_num(c) < 0x1_0000_0000_0000_0000_0000_0000_0000_0000,
        0 <= dms_den(c) < 0x1_0000_0000_0000_0000_0000_0000_0000_0000,
{
    lemma_term_bound(c[0].0 as int, c[1].1 as int, c[2].1 as int, 3600);
    lemma_term_bound(c[1].0 as int, c[0].1 as int, c[2].1 as int, 60);
    lemma_term_bound(c[2].0 as int, c[0].1 as int, c[1].1 as int, 1);
    lemma_term_bound(c[0].1 as int, c[1].1 as int, c[2].1 as int, 3600);
}

proof fn lemma_term_bound(a: int, b: int, c: int, k: int)
    by (nonlinear_arith)
    requires
        0 <= a <= 0xffff_ffff,
        0 <= b <= 0xffff_ffff,
        0 <= c <= 0xffff_ffff,
        1 <= k <= 3600,
    ensures
        0 <= k * a <= 3600 * 0xffff_ffff,
        0 <= k * a * b <= 3600 * 0xffff_ffff * 0xffff_ffff,
        0 <= k * a * b * c <= 3600 * 0xffff_ffff * 0xffff_ffff * 0xffff_ffff,
{
}

/// True exactly when the reference string is "S" or "W".
pub fn is_south_or_west(reference: &String) -> (r: bool)
    ensures
        r == is_negative_ref(reference@),
{
    let south: String = "S".to_owned();
    let west: String = "W".to_owned();
    proof {
        reveal_strlit("S");
        reveal_strlit("W");
        assert(south@ =~= seq!['S']);
        assert(west@ =~= seq!['W']);
    }
    reference.eq(&south) || reference.eq(&west)
}

/// Converts a degrees/minutes/seconds rational triple and a hemisphere
/// reference into the exact signed decimal-degree rational.  A component
/// sequence of any other length yields the neutral zero value.
pub fn convert_to_decimal_degree(components: &Vec<(u32, u32)>, reference: &String) -> (r:
    SignedDecimal)
    ensures
        r == spec_convert(components@, reference@),
{
    if components.len() != 3 {
        return SignedDecimal { neg: false, num: 0, den: 1 };
    }
    let (dn, dd) = components[0];
    let (mn, md) = components[1];
    let (sn, sd) = components[2];
    let dn = dn as u128;
    let dd = dd as u128;
    let mn = mn as u128;
    let md = md as u128;
    let sn = sn as u128;
    let sd = sd as u128;
    proof {
        lemma_dms_bounds(components@);
        lemma_term_bound(dn as int, md as int, sd as int, 3600);
        lemma_term_bound(mn as int, dd as int, sd as int, 60);
        lemma_term_bound(sn as int, dd as int, md as int, 1);
        lemma_term_bound(dd as int, md as int, sd as int, 3600);
    }
    let num: u128 = 3600 * dn * md * sd + 60 * mn * dd * sd + sn * dd * md;
    let den: u128 = 3600 * dd * md * sd;
    let neg = is_south_or_west(reference);
    SignedDecimal { neg, num, den }
}

/// A hemisphere reference of "S" yields exactly the negated value of
/// the "N" case: same magnitude, opposite sign.
pub proof fn lemma_south_negates(c: Seq<(u32, u32)>)
    requires
        c.len() == 3,
    ensures
        spec_convert(c, seq!['S']).den == spec_convert(c, seq!['N']).den,
        spec_convert(c, seq!['S']).num == spec_convert(c, seq!['N']).num,
        signed_num(spec_convert(c, seq!['S'])) == -signed_num(spec_convert(c, seq!['N'])),
{
    assert(seq!['N'][0] == 'N');
    assert(seq!['S'][0] == 'S');
    assert(seq!['W'][0] == 'W');
    assert(seq!['N'] != seq!['S']);
    assert(seq!['N'] != seq!['W']);
}

/// A component sequence of any length other than three converts to the
/// neutral zero value, whatever its contents and whatever the
/// reference.
pub proof fn lemma_wrong_arity_is_zero(c: Seq<(u32, u32)>, reference: Seq<char>)
    requires
        c.len() != 3,
    ensures
        spec_convert(c, reference) == zero_decimal(),
        signed_num(spec_convert(c, reference)) == 0,
{
}

} // verus!
