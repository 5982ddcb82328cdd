//! Verified decimal rendering of the timestamp fields.
//!
//! GPS timestamps are shown as `HH:MM:SS` with every field zero-padded to
//! at least two digits, optionally preceded by the EXIF date string.  The
//! strings are built here character by character against a recursive
//! specification of decimal notation.

use vstd::prelude::*;

verus! {

/// The digit character for a value below ten.
pub open spec fn digit_char(d: nat) -> char {
    if d == 0 {
        '0'
    } else if d == 1 {
        '1'
    } else if d == 2 {
        '2'
    } else if d == 3 {
        '3'
    } else if d == 4 {
        '4'
    } else if d == 5 {
        '5'
    } else if d == 6 {
        '6'
    } else if d == 7 {
        '7'
    } else if d == 8 {
        '8'
    } else {
        '9'
    }
}

/// The decimal notation of `n`, most significant digit first, with no
/// leading zeros (a lone zero for `n == 0`).
pub open spec fn dec_str(n: nat) -> Seq<char>
    decreases n,
{
    if n < 10 {
        seq![digit_char(n)]
    } else {
        dec_str(n / 10).push(digit_char(n % 10))
    }
}

/// Decimal notation zero-padded on the left to at least two characters.
pub open spec fn padded2(n: nat) -> Seq<char> {
    if n < 10 {
        seq!['0'] + dec_str(n)
    } else {
        dec_str(n)
    }
}

/// The `HH:MM:SS` display of an hour, minute and second count, each
/// zero-padded to at least two digits.
pub open spec fn time_of_day_str(h: u32, m: u32, s: u32) -> Seq<char> {
    padded2(h as nat) + seq![':'] + padded2(m as nat) + seq![':'] + padded2(s as nat)
}

fn digit_to_str(d: u32) -> (s: &'static str)
    requires
        d < 10,
    ensures
        s@ =~= seq![digit_char(d as nat)],
{
    proof {
        reveal_strlit("0");
        reveal_strlit("1");
        reveal_strlit("2");
        reveal_strlit("3");
        reveal_strlit("4");
        reveal_strlit("5");
        reveal_strlit("6");
        reveal_strlit("7");
        reveal_strlit("8");
        reveal_strlit("9");
    }
    if d == 0 {
        "0"
    } else if d == 1 {
        "1"
    } else if d == 2 {
        "2"
    } else if d == 3 {
        "3"
    } else if d == 4 {
        "4"
    } else if d == 5 {
        "5"
    } else if d == 6 {
        "6"
    } else if d == 7 {
        "7"
    } else if d == 8 {
        "8"
    } else {
        "9"
    }
}

/// Appends the decimal notation of `n` to `out`.
pub fn push_decimal(n: u32, out: &mut String)
    ensures
        final(out)@ == old(out)@ + dec_str(n as nat),
    decreases n,
{
    if n >= 10 {
        push_decimal(n / 10, out);
    }
    let d = digit_to_str(n % 10);
    out.append(d);
    proof {
        if n < 10 {
            assert(final(out)@ =~= old(out)@ + dec_str(n as nat));
        } else {
            assert(dec_str(n as nat) =~= dec_str(n as nat / 10) + seq![
                digit_char(n as nat % 10),
            ]);
            assert(final(out)@ =~= old(out)@ + dec_str(n as nat));
        }
    }
}

/// Appends the decimal notation of `n`, zero-padded to at least two
/// characters, to `out`.
pub fn push_padded2(n: u32, out: &mut String)
    ensures
        final(out)@ == old(out)@ + padded2(n as nat),
{
    if n < 10 {
        let zero: &'static str = "0";
        proof {
            reveal_strlit("0");
            assert(zero@ =~= seq!['0']);
        }
        out.append(zero);
    }
    push_decimal(n, out);
    proof {
        assert(final(out)@ =~= old(out)@ + padded2(n as nat));
    }
}

/// Builds the zero-padded `HH:MM:SS` display of a time of day.
pub fn format_time_of_day(h: u32, m: u32, s: u32) -> (r: String)
    ensures
        r@ == time_of_day_str(h, m, s),
{
    let mut out = String::new();
    let colon: &'static str = ":";
    proof {
        reveal_strlit(":");
        assert(colon@ =~= seq![':']);
    }
    push_padded2(h, &mut out);
    out.append(colon);
    push_padded2(m, &mut out);
    out.append(colon);
    push_padded2(s, &mut out);
    proof {
        assert(out@ =~= time_of_day_str(h, m, s));
    }
    out
}

} // verus!
