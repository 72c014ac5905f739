//! Writing fixed-point amounts with one decimal place.

use vstd::prelude::*;
use vstd::string::StringExecFns;

verus! {

/// The character for one decimal digit.
pub open spec fn digit_char(d: int) -> char {
    if d == 0 {
        '0'
    } else if d == 1 {
        '1'
    } else if d == 2 {
        '2'
    } else if d == 3 {
        '3'
    } else if d == 4 {
        '4'
    } else if d == 5 {
        '5'
    } else if d == 6 {
        '6'
    } else if d == 7 {
        '7'
    } else if d == 8 {
        '8'
    } else {
        '9'
    }
}

/// The decimal digits of `n`, most significant first, without leading zeros.
pub open spec fn decimal_digits(n: nat) -> Seq<char>
    decreases n,
{
    if n < 10 {
        seq![digit_char(n as int)]
    } else {
        decimal_digits(n / 10).push(digit_char((n % 10) as int))
    }
}

/// The distance of `v` from zero.
pub open spec fn magnitude(v: int) -> nat {
    if v < 0 {
        (-v) as nat
    } else {
        v as nat
    }
}

/// A count of millionths rounded to the nearest tenth of a unit. A tie goes
/// to the even tenth.
pub open spec fn rounded_tenths(millionths: nat) -> nat {
    let below = millionths / 100_000;
    let rest = millionths % 100_000;
    if rest > 50_000 || (rest == 50_000 && below % 2 == 1) {
        below + 1
    } else {
        below
    }
}

/// An amount of `micro` millionths written with one decimal place: a minus
/// sign where the amount is below zero, the whole part, a point, one digit.
pub open spec fn one_decimal_text(micro: int) -> Seq<char> {
    let tenths = rounded_tenths(magnitude(micro));
    let sign = if micro < 0 {
        seq!['-']
    } else {
        Seq::<char>::empty()
    };
    sign + decimal_digits(tenths / 10) + seq!['.'] + seq![digit_char((tenths % 10) as int)]
}

fn digit_str(d: u64) -> (s: &'static str)
    requires
        d < 10,
    ensures
        s@ == seq![digit_char(d as int)],
{
    proof {
        reveal_strlit("0");
        reveal_strlit("1");
        reveal_strlit("2");
        reveal_strlit("3");
        reveal_strlit("4");
        reveal_strlit("5");
        reveal_strlit("6");
        reveal_strlit("7");
        reveal_strlit("8");
        reveal_strlit("9");
    }
    let s: &'static str = if d == 0 {
        "0"
    } else if d == 1 {
        "1"
    } else if d == 2 {
        "2"
    } else if d == 3 {
        "3"
    } else if d == 4 {
        "4"
    } else if d == 5 {
        "5"
    } else if d == 6 {
        "6"
    } else if d == 7 {
        "7"
    } else if d == 8 {
        "8"
    } else {
        "9"
    };
    assert(s@ =~= seq![digit_char(d as int)]);
    s
}

/// Writes a number in decimal.
pub fn decimal_text(n: u64) -> (text: String)
    ensures
        text@ == decimal_digits(n as nat),
    decreases n,
{
    if n < 10 {
        String::from_str(digit_str(n))
    } else {
        let head = decimal_text(n / 10);
        let text = head.concat(digit_str(n % 10));
        assert(text@ =~= decimal_digits((n / 10) as nat).push(digit_char((n % 10) as int)));
        text
    }
}

/// Writes an amount given in millionths with one decimal place.
pub fn one_decimal(micro: i64) -> (text: String)
    ensures
        text@ == one_decimal_text(micro as int),
{
    let negative = micro < 0;
    let size: u64 = if negative {
        (-(micro + 1)) as u64 + 1
    } else {
        micro as u64
    };
    let below: u64 = size / 100_000;
    let rest: u64 = size % 100_000;
    let tenths: u64 = if rest > 50_000 || (rest == 50_000 && below % 2 == 1) {
        below + 1
    } else {
        below
    };
    proof {
        reveal_strlit("-");
        reveal_strlit(".");
    }
    let mut text = if negative {
        String::from_str("-")
    } else {
        String::new()
    };
    let whole = decimal_text(tenths / 10);
    text.append(whole.as_str());
    text.append(".");
    text.append(digit_str(tenths % 10));
    text
}

} // verus!
