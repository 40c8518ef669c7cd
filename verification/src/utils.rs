//! Human-readable formatting of byte sizes.
//!
//! A size is shown in `B`, `kB`, `MB` or `GB`, scaled by powers of 1000,
//! rounded half away from zero to a small number of decimal places
//! (0 for `B`, 1 for `kB` and `MB`, 2 for `GB`), with trailing zeros of
//! the fraction dropped. The caller may force a different number of
//! decimal places; places beyond the exact decimal expansion add nothing
//! and are capped.

use vstd::prelude::*;

verus! {

use vstd::string::StringExecFns;

/// The character for one decimal digit.
pub open spec fn digit_char(d: nat) -> char {
    if d == 0 {
        '0'
    } else if d == 1 {
        '1'
    } else if d == 2 {
        '2'
    } else if d == 3 {
        '3'
    } else if d == 4 {
        '4'
    } else if d == 5 {
        '5'
    } else if d == 6 {
        '6'
    } else if d == 7 {
        '7'
    } else if d == 8 {
        '8'
    } else {
        '9'
    }
}

/// Decimal digits of `n`, most significant first, no leading zeros
/// (`0` is written as one digit).
pub open spec fn dec_digits(n: nat) -> Seq<char>
    decreases n,
{
    if n < 10 {
        seq![digit_char(n)]
    } else {
        dec_digits(n / 10) + seq![digit_char(n % 10)]
    }
}

/// `10 ^ p`.
pub open spec fn pow10(p: nat) -> nat
    decreases p,
{
    if p == 0 {
        1
    } else {
        10 * pow10((p - 1) as nat)
    }
}

/// Exactly `p` decimal digits of `f`, most significant first,
/// padded on the left with zeros.
pub open spec fn frac_digits(f: nat, p: nat) -> Seq<char>
    decreases p,
{
    if p == 0 {
        Seq::empty()
    } else {
        frac_digits(f / 10, (p - 1) as nat) + seq![digit_char(f % 10)]
    }
}

/// Drops trailing decimal zeros from a fraction `f` written with `p` digits.
pub open spec fn trim_zeros(f: nat, p: nat) -> (nat, nat)
    decreases p,
{
    if p == 0 || f % 10 != 0 {
        (f, p)
    } else {
        trim_zeros(f / 10, (p - 1) as nat)
    }
}

/// The digits of `b / d` rounded half away from zero to `p` decimal
/// places: the whole part, then, when the rounded fraction is not zero,
/// a point and the fraction with trailing zeros dropped.
pub open spec fn size_string(b: nat, d: nat, p: nat) -> Seq<char> {
    let scaled = (b * pow10(p) + d / 2) / d;
    let whole = scaled / pow10(p);
    let frac = scaled % pow10(p);
    if frac == 0 {
        dec_digits(whole)
    } else {
        dec_digits(whole) + seq!['.'] + frac_digits(trim_zeros(frac, p).0, trim_zeros(frac, p).1)
    }
}

/// The number of decimal places to show: the forced count when one is
/// given, else the default, capped at the longest exact expansion.
pub open spec fn clamped_places(forced: Option<u16>, default_places: nat, max_places: nat) -> nat {
    let p = match forced {
        Some(f) => f as nat,
        None => default_places,
    };
    if p <= max_places {
        p
    } else {
        max_places
    }
}

/// The full human-readable text for a size of `bytes` bytes.
pub open spec fn humanize_spec(bytes: u64, forced_places: Option<u16>) -> Seq<char> {
    let b = bytes as nat;
    if b < 1000 {
        size_string(b, 1, clamped_places(forced_places, 0, 0)) + seq![' ', 'B']
    } else if b < 1000000 {
        size_string(b, 1000, clamped_places(forced_places, 1, 3)) + seq![' ', 'k', 'B']
    } else if b < 1000000000 {
        size_string(b, 1000000, clamped_places(forced_places, 1, 6)) + seq![' ', 'M', 'B']
    } else {
        size_string(b, 1000000000, clamped_places(forced_places, 2, 9)) + seq![' ', 'G', 'B']
    }
}

fn digit_str(d: u8) -> (r: &'static str)
    requires
        d < 10,
    ensures
        r@ == seq![digit_char(d as nat)],
{
    let r: &'static str = if d == 0 {
        "0"
    } else if d == 1 {
        "1"
    } else if d == 2 {
        "2"
    } else if d == 3 {
        "3"
    } else if d == 4 {
        "4"
    } else if d == 5 {
        "5"
    } else if d == 6 {
        "6"
    } else if d == 7 {
        "7"
    } else if d == 8 {
        "8"
    } else {
        "9"
    };
    proof {
        reveal_strlit("0");
        reveal_strlit("1");
        reveal_strlit("2");
        reveal_strlit("3");
        reveal_strlit("4");
        reveal_strlit("5");
        reveal_strlit("6");
        reveal_strlit("7");
        reveal_strlit("8");
        reveal_strlit("9");
        assert(r@ =~= seq![digit_char(d as nat)]);
    }
    r
}

fn dec_str(n: u128) -> (s: String)
    ensures
        s@ == dec_digits(n as nat),
    decreases n,
{
    if n < 10 {
        String::from_str(digit_str(n as u8))
    } else {
        let mut s = dec_str(n / 10);
        s.append(digit_str((n % 10) as u8));
        s
    }
}

fn frac_str(f: u128, p: u16) -> (s: String)
    ensures
        s@ == frac_digits(f as nat, p as nat),
    decreases p,
{
    if p == 0 {
        let s = String::from_str("");
        proof {
            reveal_strlit("");
            assert(s@ =~= frac_digits(f as nat, 0));
        }
        s
    } else {
        let mut s = frac_str(f / 10, p - 1);
        s.append(digit_str((f % 10) as u8));
        s
    }
}

fn pow10_u128(p: u16) -> (r: u128)
    requires
        p <= 9,
    ensures
        r as nat == pow10(p as nat),
        1 <= r <= 1000000000,
{
    proof {
        reveal_with_fuel(pow10, 11);
    }
    match p {
        0 => 1,
        1 => 10,
        2 => 100,
        3 => 1000,
        4 => 10000,
        5 => 100000,
        6 => 1000000,
        7 => 10000000,
        8 => 100000000,
        _ => 1000000000,
    }
}

/// Converts a size in bytes into a human-readable string, choosing the
/// unit automatically (`B`, then `kB`, `MB`, `GB` at powers of 1000) and
/// showing 0, 1, 1 or 2 decimal places respectively unless a number of
/// places is forced.
pub fn humanize_size(bytes: u64, forced_places: Option<u16>) -> (s: String)
    ensures
        s@ == humanize_spec(bytes, forced_places),
{
    let divisor: u128;
    let unit: &'static str;
    let default_places: u16;
    let max_places: u16;
    if bytes < 1000 {
        divisor = 1;
        unit = " B";
        default_places = 0;
        max_places = 0;
    } else if bytes < 1000000 {
        divisor = 1000;
        unit = " kB";
        default_places = 1;
        max_places = 3;
    } else if bytes < 1000000000 {
        divisor = 1000000;
        unit = " MB";
        default_places = 1;
        max_places = 6;
    } else {
        divisor = 1000000000;
        unit = " GB";
        default_places = 2;
        max_places = 9;
    }
    let places: u16 = match forced_places {
        Some(f) => if f <= max_places {
            f
        } else {
            max_places
        },
        None => default_places,
    };
    let m = pow10_u128(places);
    assert((bytes as u128) * m <= (u64::MAX as u128) * 1000000000) by (nonlinear_arith)
        requires
            1 <= m <= 1000000000,
            bytes <= u64::MAX,
    ;
    let scaled = ((bytes as u128) * m + divisor / 2) / divisor;
    let whole = scaled / m;
    let frac = scaled % m;
    let mut s = dec_str(whole);
    if frac > 0 {
        s.append(".");
        proof {
            reveal_strlit(".");
        }
        let mut f = frac;
        let mut p = places;
        while p > 0 && f % 10 == 0
            invariant
                trim_zeros(f as nat, p as nat) == trim_zeros(frac as nat, places as nat),
            decreases p,
        {
            f = f / 10;
            p = p - 1;
        }
        let t = frac_str(f, p);
        s.append(t.as_str());
    }
    s.append(unit);
    proof {
        reveal_strlit(" B");
        reveal_strlit(" kB");
        reveal_strlit(" MB");
        reveal_strlit(" GB");
        assert(s@ =~= humanize_spec(bytes, forced_places));
    }
    s
}

} // verus!
