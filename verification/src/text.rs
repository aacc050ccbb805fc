//! Decimal rendering of integers, proved against a recursive specification
//! of the usual base-ten digit string.

use vstd::prelude::*;

verus! {

/// The character for a single decimal digit `d` (meaningful for `d < 10`).
pub open spec fn digit_char(d: nat) -> char {
    if d == 0 {
        '0'
    } else if d == 1 {
        '1'
    } else if d == 2 {
        '2'
    } else if d == 3 {
        '3'
    } else if d == 4 {
        '4'
    } else if d == 5 {
        '5'
    } else if d == 6 {
        '6'
    } else if d == 7 {
        '7'
    } else if d == 8 {
        '8'
    } else {
        '9'
    }
}

/// The decimal digits of `n`, most significant first, with no sign and no
/// leading zeros (a single `'0'` for zero itself).
pub open spec fn nat_text(n: nat) -> Seq<char>
    decreases n,
{
    if n < 10 {
        seq![digit_char(n)]
    } else {
        nat_text(n / 10) + seq![digit_char(n % 10)]
    }
}

/// The standard decimal rendering of an integer: a leading minus sign for
/// negative values, then the digits of the magnitude.
pub open spec fn int_text(i: int) -> Seq<char> {
    if i < 0 {
        seq!['-'] + nat_text((-i) as nat)
    } else {
        nat_text(i as nat)
    }
}

/// The one-character string slice for the decimal digit `d`.
fn digit_str(d: u128) -> (r: &'static str)
    requires
        d < 10,
    ensures
        r@ == seq![digit_char(d as nat)],
{
    let r: &'static str = if d == 0 {
        "0"
    } else if d == 1 {
        "1"
    } else if d == 2 {
        "2"
    } else if d == 3 {
        "3"
    } else if d == 4 {
        "4"
    } else if d == 5 {
        "5"
    } else if d == 6 {
        "6"
    } else if d == 7 {
        "7"
    } else if d == 8 {
        "8"
    } else {
        "9"
    };
    proof {
        reveal_strlit("0");
        reveal_strlit("1");
        reveal_strlit("2");
        reveal_strlit("3");
        reveal_strlit("4");
        reveal_strlit("5");
        reveal_strlit("6");
        reveal_strlit("7");
        reveal_strlit("8");
        reveal_strlit("9");
        assert(r@ =~= seq![digit_char(d as nat)]);
    }
    r
}

/// Appends the decimal digits of `n` to `out`, most significant first.
fn push_decimal_digits(n: u128, out: &mut String)
    ensures
        final(out)@ == old(out)@ + nat_text(n as nat),
    decreases n,
{
    if n >= 10 {
        proof {
            assert(n / 10 < n) by (nonlinear_arith)
                requires
                    n >= 10,
            ;
        }
        push_decimal_digits(n / 10, out);
    }
    let d: u128 = n % 10;
    out.append(digit_str(d));
    proof {
        assert(out@ =~= old(out)@ + nat_text(n as nat));
    }
}

/// Renders a signed 128-bit integer in its standard decimal form.
pub fn signed_text(i: i128) -> (r: String)
    ensures
        r@ == int_text(i as int),
{
    if i < 0 {
        let mut out = String::from_str("-");
        let m: u128 = ((-(i + 1)) as u128) + 1;
        proof {
            reveal_strlit("-");
            assert(out@ =~= seq!['-']);
            assert(m as int == -(i as int));
        }
        push_decimal_digits(m, &mut out);
        proof {
            assert(out@ =~= int_text(i as int));
        }
        out
    } else {
        let mut out = String::new();
        push_decimal_digits(i as u128, &mut out);
        proof {
            assert(out@ =~= int_text(i as int));
        }
        out
    }
}

} // verus!
