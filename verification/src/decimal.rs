//! Decimal rendering of integers as character sequences.
//!
//! The formatting operations of the library print calendar fields either
//! plainly (a year, a day of the month) or zero-padded to two characters
//! (months, hours, minutes, seconds). The spec functions here say exactly
//! which characters such a rendering consists of, and the executable
//! functions produce strings proved equal to them.

use vstd::prelude::*;

verus! {

/// The character for a single decimal digit value in 0..=9.
pub open spec fn digit_char(d: int) -> char {
    if d == 0 {
        '0'
    } else if d == 1 {
        '1'
    } else if d == 2 {
        '2'
    } else if d == 3 {
        '3'
    } else if d == 4 {
        '4'
    } else if d == 5 {
        '5'
    } else if d == 6 {
        '6'
    } else if d == 7 {
        '7'
    } else if d == 8 {
        '8'
    } else {
        '9'
    }
}

/// The decimal digits of a natural number, most significant digit first,
/// with no sign and no padding.
pub open spec fn dec_rep(n: nat) -> Seq<char>
    decreases n,
{
    if n < 10 {
        seq![digit_char(n as int)]
    } else {
        dec_rep(n / 10) + seq![digit_char((n % 10) as int)]
    }
}

/// The decimal rendering of a signed integer: the magnitude's digits,
/// preceded by a minus sign when the value is negative.
pub open spec fn signed_rep(n: int) -> Seq<char> {
    if n < 0 {
        seq!['-'] + dec_rep((-n) as nat)
    } else {
        dec_rep(n as nat)
    }
}

/// The rendering of `n` zero-padded to a width of two characters, as
/// sign-aware zero padding gives it: only a single nonnegative digit
/// receives a leading zero; every other value is already at least two
/// characters wide.
pub open spec fn padded2_rep(n: int) -> Seq<char> {
    if 0 <= n < 10 {
        seq!['0'] + dec_rep(n as nat)
    } else {
        signed_rep(n)
    }
}

/// A one-character string slice for a single decimal digit value.
fn digit_str(d: u64) -> (r: &'static str)
    requires
        d < 10,
    ensures
        r@ == seq![digit_char(d as int)],
{
    let r: &'static str = if d == 0 {
        "0"
    } else if d == 1 {
        "1"
    } else if d == 2 {
        "2"
    } else if d == 3 {
        "3"
    } else if d == 4 {
        "4"
    } else if d == 5 {
        "5"
    } else if d == 6 {
        "6"
    } else if d == 7 {
        "7"
    } else if d == 8 {
        "8"
    } else {
        "9"
    };
    proof {
        reveal_strlit("0");
        reveal_strlit("1");
        reveal_strlit("2");
        reveal_strlit("3");
        reveal_strlit("4");
        reveal_strlit("5");
        reveal_strlit("6");
        reveal_strlit("7");
        reveal_strlit("8");
        reveal_strlit("9");
        assert(r@ =~= seq![digit_char(d as int)]);
    }
    r
}

/// The decimal digits of `n`, most significant first.
pub fn u64_decimal(n: u64) -> (r: String)
    ensures
        r@ == dec_rep(n as nat),
    decreases n,
{
    if n < 10 {
        String::from_str(digit_str(n))
    } else {
        proof {
            assert(n / 10 < n) by (nonlinear_arith)
                requires
                    n >= 10,
            ;
        }
        let prefix = u64_decimal(n / 10);
        let r = prefix.concat(digit_str(n % 10));
        proof {
            assert(r@ =~= dec_rep(n as nat));
        }
        r
    }
}

/// The decimal rendering of a signed integer, minus sign included.
pub fn i32_decimal(n: i32) -> (r: String)
    ensures
        r@ == signed_rep(n as int),
{
    if n >= 0 {
        u64_decimal(n as u64)
    } else {
        let magnitude: u64 = (-(n as i64)) as u64;
        proof {
            reveal_strlit("-");
        }
        let mut r = String::from_str("-");
        let digits = u64_decimal(magnitude);
        r.append(digits.as_str());
        proof {
            assert(r@ =~= signed_rep(n as int));
        }
        r
    }
}

/// The rendering of `n` zero-padded to a width of two characters.
pub fn padded2(n: i32) -> (r: String)
    ensures
        r@ == padded2_rep(n as int),
{
    if n >= 0 && n < 10 {
        proof {
            reveal_strlit("0");
        }
        let mut r = String::from_str("0");
        r.append(digit_str(n as u64));
        proof {
            assert(r@ =~= padded2_rep(n as int));
        }
        r
    } else {
        i32_decimal(n)
    }
}

} // verus!
