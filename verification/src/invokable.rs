//! What the invokables of an object say. The lines are made here; printing
//! them is left to the caller.

use vstd::prelude::*;
use vstd::string::*;

verus! {

/// The character for the digit `d`.
pub open spec fn digit(d: int) -> char {
    if d == 0 {
        '0'
    } else if d == 1 {
        '1'
    } else if d == 2 {
        '2'
    } else if d == 3 {
        '3'
    } else if d == 4 {
        '4'
    } else if d == 5 {
        '5'
    } else if d == 6 {
        '6'
    } else if d == 7 {
        '7'
    } else if d == 8 {
        '8'
    } else {
        '9'
    }
}

/// The decimal digits of `n`, the most significant first, without leading
/// zeros.
pub open spec fn digits(n: nat) -> Seq<char>
    decreases n,
{
    if n < 10 {
        seq![digit(n as int)]
    } else {
        digits(n / 10).push(digit((n % 10) as int))
    }
}

/// `n` written in decimal, with a minus sign before it where it is negative.
pub open spec fn decimal(n: int) -> Seq<char> {
    if n < 0 {
        seq!['-'] + digits((-n) as nat)
    } else {
        digits(n as nat)
    }
}

/// The digit `d` as text.
fn digit_str(d: u32) -> (text: &'static str)
    requires
        d < 10,
    ensures
        text@ == seq![digit(d as int)],
{
    proof {
        reveal_strlit("0");
        reveal_strlit("1");
        reveal_strlit("2");
        reveal_strlit("3");
        reveal_strlit("4");
        reveal_strlit("5");
        reveal_strlit("6");
        reveal_strlit("7");
        reveal_strlit("8");
        reveal_strlit("9");
    }
    let text = if d == 0 {
        "0"
    } else if d == 1 {
        "1"
    } else if d == 2 {
        "2"
    } else if d == 3 {
        "3"
    } else if d == 4 {
        "4"
    } else if d == 5 {
        "5"
    } else if d == 6 {
        "6"
    } else if d == 7 {
        "7"
    } else if d == 8 {
        "8"
    } else {
        "9"
    };
    assert(text@ =~= seq![digit(d as int)]);
    text
}

/// Writes `number` in decimal.
pub fn decimal_string(number: i32) -> (text: String)
    ensures
        text@ == decimal(number as int),
{
    let magnitude: u32 = if number < 0 {
        (-(number as i64)) as u32
    } else {
        number as u32
    };
    let mut text = String::from_str(digit_str(magnitude % 10));
    let mut rest: u32 = magnitude / 10;
    while rest > 0
        invariant
            rest > 0 ==> digits(magnitude as nat) == digits(rest as nat) + text@,
            rest == 0 ==> digits(magnitude as nat) == text@,
        decreases rest,
    {
        let mut longer = String::from_str(digit_str(rest % 10));
        longer.append(text.as_str());
        proof {
            let last = seq![digit((rest % 10) as int)];
            if rest < 10 {
                assert(digits(rest as nat) == last);
            } else {
                assert(digits(rest as nat) == digits((rest / 10) as nat) + last);
                assert(digits((rest / 10) as nat) + last + text@ =~= digits((rest / 10) as nat) + (
                last + text@));
            }
        }
        text = longer;
        rest = rest / 10;
    }
    if number < 0 {
        proof {
            reveal_strlit("-");
        }
        let mut signed = String::from_str("-");
        signed.append(text.as_str());
        assert(signed@ =~= seq!['-'] + text@);
        signed
    } else {
        text
    }
}

/// The line that `say_hi` says for `string` and `number`.
pub fn say_hi_line(string: &str, number: i32) -> (line: String)
    ensures
        line@ == "Hi from Rust! String is "@ + string@ + " and number is "@ + decimal(
            number as int,
        ),
{
    let mut line = String::from_str("Hi from Rust! String is ");
    line.append(string);
    line.append(" and number is ");
    line.append(decimal_string(number).as_str());
    line
}

} // verus!
