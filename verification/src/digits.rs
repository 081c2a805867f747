//! Rendering non-negative integers as decimal strings, and a fixed-point
//! rendering of centiseconds with up to two decimal places.
//!
//! The verdict printed for the user contains the offset magnitude either as
//! a whole number of milliseconds or as seconds with at most two decimals;
//! both come from the functions here.

use vstd::prelude::*;

verus! {

/// The decimal digit character for `d < 10`.
pub open spec fn digit_char(d: nat) -> char {
    if d == 0 {
        '0'
    } else if d == 1 {
        '1'
    } else if d == 2 {
        '2'
    } else if d == 3 {
        '3'
    } else if d == 4 {
        '4'
    } else if d == 5 {
        '5'
    } else if d == 6 {
        '6'
    } else if d == 7 {
        '7'
    } else if d == 8 {
        '8'
    } else {
        '9'
    }
}

/// The decimal representation of `n`, without leading zeroes (a single
/// `'0'` for zero).
pub open spec fn dec_chars(n: nat) -> Seq<char>
    decreases n,
{
    if n < 10 {
        seq![digit_char(n)]
    } else {
        dec_chars(n / 10).push(digit_char(n % 10))
    }
}

/// `c` hundredths rendered as a decimal number with up to two decimal
/// places: `150` becomes `1.5`, `204` becomes `2.04`, `300` becomes `3`.
pub open spec fn centi_chars(c: nat) -> Seq<char> {
    let whole = c / 100;
    let frac = c % 100;
    if frac == 0 {
        dec_chars(whole)
    } else if frac % 10 == 0 {
        dec_chars(whole) + "."@ + seq![digit_char(frac / 10)]
    } else {
        dec_chars(whole) + "."@ + seq![digit_char(frac / 10), digit_char(frac % 10)]
    }
}

/// The one-character string for a single decimal digit.
fn digit_literal(d: u128) -> (s: &'static str)
    requires
        d < 10,
    ensures
        s@ == seq![digit_char(d as nat)],
{
    proof {
        reveal_strlit("0");
        reveal_strlit("1");
        reveal_strlit("2");
        reveal_strlit("3");
        reveal_strlit("4");
        reveal_strlit("5");
        reveal_strlit("6");
        reveal_strlit("7");
        reveal_strlit("8");
        reveal_strlit("9");
    }
    let s: &'static str = if d == 0 {
        "0"
    } else if d == 1 {
        "1"
    } else if d == 2 {
        "2"
    } else if d == 3 {
        "3"
    } else if d == 4 {
        "4"
    } else if d == 5 {
        "5"
    } else if d == 6 {
        "6"
    } else if d == 7 {
        "7"
    } else if d == 8 {
        "8"
    } else {
        "9"
    };
    proof {
        assert(s@ =~= seq![digit_char(d as nat)]);
    }
    s
}

/// Renders `n` in decimal.
pub fn dec_string(n: u128) -> (s: String)
    ensures
        s@ == dec_chars(n as nat),
    decreases n,
{
    if n < 10 {
        String::from_str(digit_literal(n))
    } else {
        let mut s = dec_string(n / 10);
        s.append(digit_literal(n % 10));
        proof {
            assert(s@ =~= dec_chars((n / 10) as nat).push(digit_char((n % 10) as nat)));
        }
        s
    }
}

/// Renders `c` hundredths with up to two decimal places, as `centi_chars`
/// describes.
pub fn centi_string(c: u128) -> (s: String)
    ensures
        s@ == centi_chars(c as nat),
{
    let whole = c / 100;
    let frac = c % 100;
    let mut s = dec_string(whole);
    if frac == 0 {
        s
    } else if frac % 10 == 0 {
        s.append(".");
        s.append(digit_literal(frac / 10));
        proof {
            assert(s@ =~= centi_chars(c as nat));
        }
        s
    } else {
        s.append(".");
        s.append(digit_literal(frac / 10));
        s.append(digit_literal(frac % 10));
        proof {
            assert(s@ =~= centi_chars(c as nat));
        }
        s
    }
}

} // verus!
