//! Verified rendering of integers as decimal text, used by both
//! presenters.

use vstd::prelude::*;
use vstd::string::StringExecFns;

verus! {

/// The decimal digit character for a value below ten.
pub open spec fn spec_digit(d: int) -> char {
    if d == 0 {
        '0'
    } else if d == 1 {
        '1'
    } else if d == 2 {
        '2'
    } else if d == 3 {
        '3'
    } else if d == 4 {
        '4'
    } else if d == 5 {
        '5'
    } else if d == 6 {
        '6'
    } else if d == 7 {
        '7'
    } else if d == 8 {
        '8'
    } else {
        '9'
    }
}

/// Decimal text of a nonnegative integer, most significant digit first,
/// with no leading zeros (a single `0` for zero).
pub open spec fn spec_u_dec(n: nat) -> Seq<char>
    decreases n,
{
    if n < 10 {
        seq![spec_digit(n as int)]
    } else {
        spec_u_dec(n / 10).push(spec_digit((n % 10) as int))
    }
}

/// Decimal text of an integer: a leading `-` for negative values.
pub open spec fn spec_i_dec(n: int) -> Seq<char> {
    if n < 0 {
        seq!['-'] + spec_u_dec((-n) as nat)
    } else {
        spec_u_dec(n as nat)
    }
}

/// The one-character string for a decimal digit.
fn digit_str(d: u128) -> (r: &'static str)
    requires
        d < 10,
    ensures
        r@ == seq![spec_digit(d as int)],
{
    let r: &'static str = match d {
        0 => "0",
        1 => "1",
        2 => "2",
        3 => "3",
        4 => "4",
        5 => "5",
        6 => "6",
        7 => "7",
        8 => "8",
        _ => "9",
    };
    proof {
        reveal_strlit("0");
        reveal_strlit("1");
        reveal_strlit("2");
        reveal_strlit("3");
        reveal_strlit("4");
        reveal_strlit("5");
        reveal_strlit("6");
        reveal_strlit("7");
        reveal_strlit("8");
        reveal_strlit("9");
        assert(r@ =~= seq![spec_digit(d as int)]);
    }
    r
}

/// Renders an unsigned value as decimal text.
pub fn u128_dec(n: u128) -> (r: String)
    ensures
        r@ == spec_u_dec(n as nat),
    decreases n,
{
    if n < 10 {
        String::from_str(digit_str(n))
    } else {
        let mut s = u128_dec(n / 10);
        s.append(digit_str(n % 10));
        proof {
            assert(s@ =~= spec_u_dec(n as nat));
        }
        s
    }
}

/// Renders an unsigned 64-bit value as decimal text.
pub fn u64_dec(n: u64) -> (r: String)
    ensures
        r@ == spec_u_dec(n as nat),
{
    u128_dec(n as u128)
}

/// Renders a signed value as decimal text, with a leading `-` when
/// negative.
pub fn i128_dec(n: i128) -> (r: String)
    ensures
        r@ == spec_i_dec(n as int),
{
    if n >= 0 {
        u128_dec(n as u128)
    } else {
        let mag: u128 = if n == i128::MIN {
            170141183460469231731687303715884105728u128
        } else {
            (-n) as u128
        };
        let mut s = String::from_str("-");
        let digits = u128_dec(mag);
        s.append(digits.as_str());
        proof {
            reveal_strlit("-");
            assert(s@ =~= spec_i_dec(n as int));
        }
        s
    }
}

/// Renders a signed 64-bit value as decimal text.
pub fn i64_dec(n: i64) -> (r: String)
    ensures
        r@ == spec_i_dec(n as int),
{
    i128_dec(n as i128)
}

} // verus!
