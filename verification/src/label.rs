//! Verified building blocks for the human-readable preset label: decimal
//! rendering of whole numbers, one-decimal rendering of thousandths
//! magnitudes, and space-padding for the frequency column.

use vstd::prelude::*;
use vstd::string::StringExecFns;
use vstd::string::StrSliceExecFns;

verus! {

/// The character for one decimal digit.
pub open spec fn digit_char(d: nat) -> char {
    if d == 0 {
        '0'
    } else if d == 1 {
        '1'
    } else if d == 2 {
        '2'
    } else if d == 3 {
        '3'
    } else if d == 4 {
        '4'
    } else if d == 5 {
        '5'
    } else if d == 6 {
        '6'
    } else if d == 7 {
        '7'
    } else if d == 8 {
        '8'
    } else {
        '9'
    }
}

/// The decimal digits of `n`, most significant first, no leading zeros
/// (a single zero for `n == 0`).
pub open spec fn dec_digits(n: nat) -> Seq<char>
    decreases n,
{
    if n < 10 {
        seq![digit_char(n)]
    } else {
        dec_digits(n / 10).push(digit_char(n % 10))
    }
}

/// The magnitude rounded to tenths of a unit, half rounding up.
pub open spec fn tenths_of_milli(m: nat) -> nat {
    (m + 50) / 100
}

/// A thousandths magnitude rendered with one decimal place, e.g. `0.5`.
pub open spec fn fixed1(m: nat) -> Seq<char> {
    let t = tenths_of_milli(m);
    dec_digits(t / 10) + seq!['.'] + seq![digit_char(t % 10)]
}

/// A whole number right-aligned in a field of four, padded with spaces
/// (wider numbers overflow the field unpadded).
pub open spec fn padded4(n: nat) -> Seq<char> {
    if n < 10 {
        seq![' ', ' ', ' '] + dec_digits(n)
    } else if n < 100 {
        seq![' ', ' '] + dec_digits(n)
    } else if n < 1000 {
        seq![' '] + dec_digits(n)
    } else {
        dec_digits(n)
    }
}

fn digit_str(d: u64) -> (r: &'static str)
    requires
        d < 10,
    ensures
        r@ == seq![digit_char(d as nat)],
{
    proof {
        reveal_strlit("0");
        reveal_strlit("1");
        reveal_strlit("2");
        reveal_strlit("3");
        reveal_strlit("4");
        reveal_strlit("5");
        reveal_strlit("6");
        reveal_strlit("7");
        reveal_strlit("8");
        reveal_strlit("9");
    }
    let r: &'static str = if d == 0 {
        "0"
    } else if d == 1 {
        "1"
    } else if d == 2 {
        "2"
    } else if d == 3 {
        "3"
    } else if d == 4 {
        "4"
    } else if d == 5 {
        "5"
    } else if d == 6 {
        "6"
    } else if d == 7 {
        "7"
    } else if d == 8 {
        "8"
    } else {
        "9"
    };
    proof {
        assert(r@ =~= seq![digit_char(d as nat)]);
    }
    r
}

/// Renders `n` in decimal.
pub fn u64_to_string(n: u64) -> (r: String)
    ensures
        r@ == dec_digits(n as nat),
    decreases n,
{
    if n < 10 {
        String::from_str(digit_str(n))
    } else {
        proof {
            assert(n / 10 < n) by (nonlinear_arith)
                requires
                    n >= 10,
            ;
        }
        let mut s = u64_to_string(n / 10);
        s.append(digit_str(n % 10));
        s
    }
}

/// Renders a thousandths magnitude with one decimal place.
pub fn fixed1_string(m: u64) -> (r: String)
    ensures
        r@ == fixed1(m as nat),
{
    let t_wide: u128 = (m as u128 + 50) / 100;
    proof {
        assert(t_wide <= u64::MAX as u128);
    }
    let t: u64 = t_wide as u64;
    let mut s = u64_to_string(t / 10);
    proof {
        reveal_strlit(".");
        assert("."@ =~= seq!['.']);
    }
    s.append(".");
    s.append(digit_str(t % 10));
    proof {
        assert(s@ =~= fixed1(m as nat));
    }
    s
}

/// Renders `n` right-aligned in a field of four.
pub fn padded4_string(n: u64) -> (r: String)
    ensures
        r@ == padded4(n as nat),
{
    proof {
        reveal_strlit("   ");
        reveal_strlit("  ");
        reveal_strlit(" ");
    }
    let mut s = String::new();
    if n < 10 {
        s.append("   ");
    } else if n < 100 {
        s.append("  ");
    } else if n < 1000 {
        s.append(" ");
    }
    let d = u64_to_string(n);
    s.append(d.as_str());
    proof {
        assert(s@ =~= padded4(n as nat));
    }
    s
}

} // verus!
