//! Decimal rendering of integers and of amounts in cents. An amount of
//! `c` cents is shown as dollars, a point, and exactly two digits of cents.
use vstd::prelude::*;

verus! {

/// The character of one decimal digit.
pub open spec fn digit_char(d: int) -> char {
    if d == 0 {
        '0'
    } else if d == 1 {
        '1'
    } else if d == 2 {
        '2'
    } else if d == 3 {
        '3'
    } else if d == 4 {
        '4'
    } else if d == 5 {
        '5'
    } else if d == 6 {
        '6'
    } else if d == 7 {
        '7'
    } else if d == 8 {
        '8'
    } else {
        '9'
    }
}

/// The decimal digits of `n`, most significant first.
pub open spec fn dec_chars(n: nat) -> Seq<char>
    decreases n,
{
    if n < 10 {
        seq![digit_char(n as int)]
    } else {
        dec_chars(n / 10).push(digit_char((n % 10) as int))
    }
}

/// An amount of `cents` cents as dollars, '.', and two cent digits.
pub open spec fn money_chars(cents: nat) -> Seq<char> {
    dec_chars(cents / 100) + seq![
        '.',
        digit_char(((cents % 100) / 10) as int),
        digit_char(((cents % 100) % 10) as int),
    ]
}

/// The one-character string of a decimal digit.
fn digit_str(d: u128) -> (r: &'static str)
    requires
        d < 10,
    ensures
        r@ == seq![digit_char(d as int)],
{
    proof {
        reveal_strlit("0");
        reveal_strlit("1");
        reveal_strlit("2");
        reveal_strlit("3");
        reveal_strlit("4");
        reveal_strlit("5");
        reveal_strlit("6");
        reveal_strlit("7");
        reveal_strlit("8");
        reveal_strlit("9");
    }
    let r = match d {
        0 => "0",
        1 => "1",
        2 => "2",
        3 => "3",
        4 => "4",
        5 => "5",
        6 => "6",
        7 => "7",
        8 => "8",
        _ => "9",
    };
    proof {
        assert(r@ =~= seq![digit_char(d as int)]);
    }
    r
}

/// The decimal rendering of `n`, most significant digit first.
pub fn dec_string(n: u128) -> (r: String)
    ensures
        r@ == dec_chars(n as nat),
    decreases n,
{
    if n < 10 {
        String::from_str(digit_str(n))
    } else {
        let mut s = dec_string(n / 10);
        s.append(digit_str(n % 10));
        proof {
            assert(s@ =~= dec_chars(n as nat));
        }
        s
    }
}

/// `cents` rendered as dollars and exactly two decimal places.
pub fn format_cents(cents: u64) -> (r: String)
    ensures
        r@ == money_chars(cents as nat),
{
    let rem = cents % 100;
    let mut s = dec_string((cents / 100) as u128);
    s.append(".");
    s.append(digit_str((rem / 10) as u128));
    s.append(digit_str((rem % 10) as u128));
    proof {
        reveal_strlit(".");
        assert(s@ =~= money_chars(cents as nat));
    }
    s
}

} // verus!
