//! Decimal rendering of integers, used for ordinal suffixes in display labels
//! and for exit codes in command-failure messages.

use vstd::prelude::*;
use vstd::string::StringExecFns;

verus! {

/// The character of one decimal digit.
pub open spec fn digit_char(d: nat) -> char
    recommends
        d < 10,
{
    if d == 0 {
        '0'
    } else if d == 1 {
        '1'
    } else if d == 2 {
        '2'
    } else if d == 3 {
        '3'
    } else if d == 4 {
        '4'
    } else if d == 5 {
        '5'
    } else if d == 6 {
        '6'
    } else if d == 7 {
        '7'
    } else if d == 8 {
        '8'
    } else {
        '9'
    }
}

/// Decimal representation of a natural number, most significant digit first,
/// with no leading zeros (a single zero for zero itself).
pub open spec fn dec_rep(n: nat) -> Seq<char>
    decreases n,
{
    if n < 10 {
        seq![digit_char(n)]
    } else {
        dec_rep(n / 10).push(digit_char(n % 10))
    }
}

/// Decimal representation of an integer: a minus sign ahead of the digits of
/// the magnitude for a negative number.
pub open spec fn int_rep(i: int) -> Seq<char> {
    if i >= 0 {
        dec_rep(i as nat)
    } else {
        seq!['-'] + dec_rep((-i) as nat)
    }
}

fn push_digit(s: &mut String, d: u64)
    requires
        d < 10,
    ensures
        final(s)@ == old(s)@.push(digit_char(d as nat)),
{
    if d == 0 {
        s.append("0");
        proof {
            reveal_strlit("0");
            assert(s@ =~= old(s)@.push(digit_char(d as nat)));
        }
    } else if d == 1 {
        s.append("1");
        proof {
            reveal_strlit("1");
            assert(s@ =~= old(s)@.push(digit_char(d as nat)));
        }
    } else if d == 2 {
        s.append("2");
        proof {
            reveal_strlit("2");
            assert(s@ =~= old(s)@.push(digit_char(d as nat)));
        }
    } else if d == 3 {
        s.append("3");
        proof {
            reveal_strlit("3");
            assert(s@ =~= old(s)@.push(digit_char(d as nat)));
        }
    } else if d == 4 {
        s.append("4");
        proof {
            reveal_strlit("4");
            assert(s@ =~= old(s)@.push(digit_char(d as nat)));
        }
    } else if d == 5 {
        s.append("5");
        proof {
            reveal_strlit("5");
            assert(s@ =~= old(s)@.push(digit_char(d as nat)));
        }
    } else if d == 6 {
        s.append("6");
        proof {
            reveal_strlit("6");
            assert(s@ =~= old(s)@.push(digit_char(d as nat)));
        }
    } else if d == 7 {
        s.append("7");
        proof {
            reveal_strlit("7");
            assert(s@ =~= old(s)@.push(digit_char(d as nat)));
        }
    } else if d == 8 {
        s.append("8");
        proof {
            reveal_strlit("8");
            assert(s@ =~= old(s)@.push(digit_char(d as nat)));
        }
    } else {
        s.append("9");
        proof {
            reveal_strlit("9");
            assert(s@ =~= old(s)@.push(digit_char(d as nat)));
        }
    }
}

/// Renders a natural number in decimal.
pub fn u64_to_decimal(n: u64) -> (r: String)
    ensures
        r@ == dec_rep(n as nat),
    decreases n,
{
    let mut r = if n >= 10 {
        u64_to_decimal(n / 10)
    } else {
        String::new()
    };
    push_digit(&mut r, n % 10);
    proof {
        if n < 10 {
            assert(r@ =~= seq![digit_char(n as nat)]);
        } else {
            assert(r@ =~= dec_rep(n as nat));
        }
    }
    r
}

/// Renders a signed number in decimal, with a leading minus sign if negative.
pub fn i32_to_decimal(c: i32) -> (r: String)
    ensures
        r@ == int_rep(c as int),
{
    if c >= 0 {
        u64_to_decimal(c as u64)
    } else {
        let wide: i64 = c as i64;
        let mag: u64 = (-wide) as u64;
        let digits = u64_to_decimal(mag);
        let mut r = String::from_str("-");
        r.append(digits.as_str());
        proof {
            reveal_strlit("-");
            assert(mag as nat == (-(c as int)) as nat);
            assert(r@ =~= int_rep(c as int));
        }
        r
    }
}

} // verus!
