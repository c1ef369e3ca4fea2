//! Decimal rendering of the fixed-point quantities the layout engine works
//! with. Lengths are carried as integer hundredths of a typographic point
//! (or thousandths of an inch), and every renderer prints them through the
//! functions here, so all encoders agree on one textual form.
use vstd::prelude::*;

verus! {

use vstd::string::StringExecFns;

/// The decimal digit character for `d` (meaningful for `0 <= d <= 9`).
pub open spec fn spec_digit(d: int) -> char {
    if d == 0 {
        '0'
    } else if d == 1 {
        '1'
    } else if d == 2 {
        '2'
    } else if d == 3 {
        '3'
    } else if d == 4 {
        '4'
    } else if d == 5 {
        '5'
    } else if d == 6 {
        '6'
    } else if d == 7 {
        '7'
    } else if d == 8 {
        '8'
    } else {
        '9'
    }
}

/// Base-ten rendering of a non-negative integer, most significant digit first.
pub open spec fn spec_u64_str(n: int) -> Seq<char>
    decreases n,
{
    if n < 10 {
        seq![spec_digit(n)]
    } else {
        spec_u64_str(n / 10) + seq![spec_digit(n % 10)]
    }
}

fn digit_str(d: u64) -> (r: &'static str)
    requires
        d < 10,
    ensures
        r@ == seq![spec_digit(d as int)],
{
    proof {
        reveal_strlit("0");
        reveal_strlit("1");
        reveal_strlit("2");
        reveal_strlit("3");
        reveal_strlit("4");
        reveal_strlit("5");
        reveal_strlit("6");
        reveal_strlit("7");
        reveal_strlit("8");
        reveal_strlit("9");
    }
    let r: &'static str = if d == 0 {
        "0"
    } else if d == 1 {
        "1"
    } else if d == 2 {
        "2"
    } else if d == 3 {
        "3"
    } else if d == 4 {
        "4"
    } else if d == 5 {
        "5"
    } else if d == 6 {
        "6"
    } else if d == 7 {
        "7"
    } else if d == 8 {
        "8"
    } else {
        "9"
    };
    proof {
        assert(r@ =~= seq![spec_digit(d as int)]);
    }
    r
}

/// Renders `n` in base ten.
pub fn u64_to_string(n: u64) -> (s: String)
    ensures
        s@ == spec_u64_str(n as int),
    decreases n,
{
    if n < 10 {
        digit_str(n).to_owned()
    } else {
        let mut s = u64_to_string(n / 10);
        s.append(digit_str(n % 10));
        s
    }
}


/// A value in tenths shown with exactly one decimal place.
pub open spec fn spec_tenths_str(v: int) -> Seq<char> {
    spec_u64_str(v / 10) + "."@ + seq![spec_digit(v % 10)]
}

/// Renders a value held in tenths, e.g. `8` as `0.8`.
pub fn fmt_tenths(v: u64) -> (s: String)
    ensures
        s@ == spec_tenths_str(v as int),
{
    let mut s = u64_to_string(v / 10);
    s.append(".");
    s.append(digit_str(v % 10));
    proof {
        assert(s@ =~= spec_tenths_str(v as int));
    }
    s
}

/// A value in hundredths, shown the way a plain decimal number is written:
/// the fractional part is omitted when zero and a trailing zero digit is
/// dropped, so `17200` reads `172` and `59528` reads `595.28`.
pub open spec fn spec_centi_str(v: int) -> Seq<char> {
    let whole = v / 100;
    let frac = v % 100;
    if frac == 0 {
        spec_u64_str(whole)
    } else if frac % 10 == 0 {
        spec_u64_str(whole) + "."@ + seq![spec_digit(frac / 10)]
    } else {
        spec_u64_str(whole) + "."@ + seq![spec_digit(frac / 10), spec_digit(frac % 10)]
    }
}

/// Renders a value held in hundredths, trimming trailing fractional zeros.
pub fn fmt_centi(v: u64) -> (s: String)
    ensures
        s@ == spec_centi_str(v as int),
{
    let whole = v / 100;
    let frac = v % 100;
    if frac == 0 {
        u64_to_string(whole)
    } else if frac % 10 == 0 {
        let mut s = u64_to_string(whole);
        s.append(".");
        s.append(digit_str(frac / 10));
        proof {
            assert(s@ =~= spec_centi_str(v as int));
        }
        s
    } else {
        let mut s = u64_to_string(whole);
        s.append(".");
        s.append(digit_str(frac / 10));
        s.append(digit_str(frac % 10));
        proof {
            assert(s@ =~= spec_centi_str(v as int));
        }
        s
    }
}

/// A value in hundredths shown with exactly two decimal places.
pub open spec fn spec_centi2_str(v: int) -> Seq<char> {
    spec_u64_str(v / 100) + "."@ + seq![spec_digit(v % 100 / 10), spec_digit(v % 100 % 10)]
}

/// Renders a value held in hundredths with exactly two decimal places.
pub fn fmt_centi2(v: u64) -> (s: String)
    ensures
        s@ == spec_centi2_str(v as int),
{
    let mut s = u64_to_string(v / 100);
    s.append(".");
    s.append(digit_str(v % 100 / 10));
    s.append(digit_str(v % 100 % 10));
    proof {
        assert(s@ =~= spec_centi2_str(v as int));
    }
    s
}

/// A value in hundredths rounded to tenths, half away from zero.
pub open spec fn spec_round_tenths(v: int) -> int {
    if v % 10 >= 5 {
        v / 10 + 1
    } else {
        v / 10
    }
}

/// A value in hundredths shown with exactly one decimal place (rounded).
pub open spec fn spec_centi1_str(v: int) -> Seq<char> {
    let t = spec_round_tenths(v);
    spec_u64_str(t / 10) + "."@ + seq![spec_digit(t % 10)]
}

/// Renders a value held in hundredths with one decimal place, rounding the
/// dropped digit half up.
pub fn fmt_centi1(v: u64) -> (s: String)
    requires
        v < 0xffff_ffff_ffff_ffff,
    ensures
        s@ == spec_centi1_str(v as int),
{
    let t = if v % 10 >= 5 {
        v / 10 + 1
    } else {
        v / 10
    };
    let mut s = u64_to_string(t / 10);
    s.append(".");
    s.append(digit_str(t % 10));
    proof {
        assert(s@ =~= spec_centi1_str(v as int));
    }
    s
}

/// A value in thousandths shown with exactly three decimal places.
pub open spec fn spec_milli3_str(v: int) -> Seq<char> {
    spec_u64_str(v / 1000) + "."@ + seq![
        spec_digit(v % 1000 / 100),
        spec_digit(v % 1000 / 10 % 10),
        spec_digit(v % 1000 % 10),
    ]
}

/// Renders a value held in thousandths with exactly three decimal places.
pub fn fmt_milli3(v: u64) -> (s: String)
    ensures
        s@ == spec_milli3_str(v as int),
{
    let mut s = u64_to_string(v / 1000);
    s.append(".");
    s.append(digit_str(v % 1000 / 100));
    s.append(digit_str(v % 1000 / 10 % 10));
    s.append(digit_str(v % 1000 % 10));
    proof {
        assert(s@ =~= spec_milli3_str(v as int));
    }
    s
}

/// A value in thousandths rounded to a whole number, half away from zero.
pub open spec fn spec_milli0_str(v: int) -> Seq<char> {
    if v % 1000 >= 500 {
        spec_u64_str(v / 1000 + 1)
    } else {
        spec_u64_str(v / 1000)
    }
}

/// Renders a value held in thousandths as a whole number, rounding half up.
pub fn fmt_milli0(v: u64) -> (s: String)
    requires
        v < 0xffff_ffff_ffff_fc00,
    ensures
        s@ == spec_milli0_str(v as int),
{
    let w = if v % 1000 >= 500 {
        v / 1000 + 1
    } else {
        v / 1000
    };
    u64_to_string(w)
}

/// A value in thousandths shown with exactly two decimal places (rounded).
pub open spec fn spec_milli2_str(v: int) -> Seq<char> {
    if v % 10 >= 5 {
        spec_centi2_str(v / 10 + 1)
    } else {
        spec_centi2_str(v / 10)
    }
}

/// Renders a value held in thousandths with two decimal places, rounding the
/// dropped digit half up.
pub fn fmt_milli2(v: u64) -> (s: String)
    requires
        v < 0xffff_ffff_ffff_fff0,
    ensures
        s@ == spec_milli2_str(v as int),
{
    let h = if v % 10 >= 5 {
        v / 10 + 1
    } else {
        v / 10
    };
    fmt_centi2(h)
}

} // verus!
