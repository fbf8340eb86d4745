//! Decimal rendering of integers, used by the error taxonomy so that an
//! unrecognized native status code is carried verbatim in the error message.

use vstd::prelude::*;
use vstd::string::StringExecFns;

verus! {

/// The character for a single decimal digit.
pub open spec fn digit_char(d: nat) -> char {
    if d == 0 {
        '0'
    } else if d == 1 {
        '1'
    } else if d == 2 {
        '2'
    } else if d == 3 {
        '3'
    } else if d == 4 {
        '4'
    } else if d == 5 {
        '5'
    } else if d == 6 {
        '6'
    } else if d == 7 {
        '7'
    } else if d == 8 {
        '8'
    } else {
        '9'
    }
}

/// The usual decimal notation of a natural number, most significant digit
/// first, with no leading zeros (except for zero itself).
pub open spec fn decimal_digits(n: nat) -> Seq<char>
    decreases n,
{
    if n < 10 {
        seq![digit_char(n)]
    } else {
        decimal_digits(n / 10).push(digit_char(n % 10))
    }
}

/// The decimal notation of an integer: a minus sign before the magnitude for
/// negative values.
pub open spec fn decimal_of_int(n: int) -> Seq<char> {
    if n < 0 {
        seq!['-'] + decimal_digits((-n) as nat)
    } else {
        decimal_digits(n as nat)
    }
}

/// Appends the character of one decimal digit to a string.
fn push_digit(s: &mut String, d: u64)
    requires
        d < 10,
    ensures
        final(s)@ == old(s)@.push(digit_char(d as nat)),
{
    let ds: &str = if d == 0 {
        "0"
    } else if d == 1 {
        "1"
    } else if d == 2 {
        "2"
    } else if d == 3 {
        "3"
    } else if d == 4 {
        "4"
    } else if d == 5 {
        "5"
    } else if d == 6 {
        "6"
    } else if d == 7 {
        "7"
    } else if d == 8 {
        "8"
    } else {
        "9"
    };
    proof {
        reveal_strlit("0");
        reveal_strlit("1");
        reveal_strlit("2");
        reveal_strlit("3");
        reveal_strlit("4");
        reveal_strlit("5");
        reveal_strlit("6");
        reveal_strlit("7");
        reveal_strlit("8");
        reveal_strlit("9");
        assert(ds@ =~= seq![digit_char(d as nat)]);
    }
    s.append(ds);
    proof {
        assert(s@ =~= old(s)@.push(digit_char(d as nat)));
    }
}

/// Renders an unsigned integer in decimal.
pub fn u64_to_decimal(n: u64) -> (r: String)
    ensures
        r@ == decimal_digits(n as nat),
    decreases n,
{
    if n < 10 {
        let mut s = String::new();
        push_digit(&mut s, n);
        proof {
            assert(s@ =~= decimal_digits(n as nat));
        }
        s
    } else {
        assert(n / 10 < n);
        let mut s = u64_to_decimal(n / 10);
        push_digit(&mut s, n % 10);
        proof {
            assert(s@ =~= decimal_digits(n as nat));
        }
        s
    }
}

/// Renders a signed 32-bit integer in decimal.
pub fn i32_to_decimal(n: i32) -> (r: String)
    ensures
        r@ == decimal_of_int(n as int),
{
    if n < 0 {
        let mag: u64 = (-(n as i64)) as u64;
        proof {
            assert(mag as nat == (-(n as int)) as nat);
        }
        let mut s = String::from_str("-");
        let digits = u64_to_decimal(mag);
        s.append(digits.as_str());
        proof {
            reveal_strlit("-");
            assert(s@ =~= decimal_of_int(n as int));
        }
        s
    } else {
        u64_to_decimal(n as u64)
    }
}

} // verus!
