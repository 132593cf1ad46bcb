//! Decimal rendering of numbers, as the diagnostics, the summary line and
//! the throughput figures show them.

use vstd::prelude::*;

verus! {

/// The character of one decimal digit.
pub open spec fn digit_char(d: int) -> char {
    if d == 0 {
        '0'
    } else if d == 1 {
        '1'
    } else if d == 2 {
        '2'
    } else if d == 3 {
        '3'
    } else if d == 4 {
        '4'
    } else if d == 5 {
        '5'
    } else if d == 6 {
        '6'
    } else if d == 7 {
        '7'
    } else if d == 8 {
        '8'
    } else {
        '9'
    }
}

/// The decimal numeral of `n`: no sign, no leading zero, `"0"` for zero.
pub open spec fn decimal(n: nat) -> Seq<char>
    decreases n,
{
    if n < 10 {
        seq![digit_char(n as int)]
    } else {
        decimal(n / 10).push(digit_char((n % 10) as int))
    }
}

/// The one-character text of a decimal digit.
fn digit_text(d: usize) -> (t: &'static str)
    requires
        d < 10,
    ensures
        t@ == seq![digit_char(d as int)],
{
    proof {
        reveal_strlit("0");
        reveal_strlit("1");
        reveal_strlit("2");
        reveal_strlit("3");
        reveal_strlit("4");
        reveal_strlit("5");
        reveal_strlit("6");
        reveal_strlit("7");
        reveal_strlit("8");
        reveal_strlit("9");
    }
    let t = if d == 0 {
        "0"
    } else if d == 1 {
        "1"
    } else if d == 2 {
        "2"
    } else if d == 3 {
        "3"
    } else if d == 4 {
        "4"
    } else if d == 5 {
        "5"
    } else if d == 6 {
        "6"
    } else if d == 7 {
        "7"
    } else if d == 8 {
        "8"
    } else {
        "9"
    };
    assert(t@ =~= seq![digit_char(d as int)]);
    t
}

/// Renders `n` in decimal.
pub fn decimal_string(n: u128) -> (s: String)
    ensures
        s@ == decimal(n as nat),
{
    let mut s = String::from_str(digit_text((n % 10) as usize));
    let mut rest: u128 = n / 10;
    while rest > 0
        invariant
            rest > 0 ==> decimal(n as nat) == decimal(rest as nat) + s@,
            rest == 0 ==> decimal(n as nat) == s@,
        decreases rest,
    {
        let head = String::from_str(digit_text((rest % 10) as usize));
        proof {
            let d = seq![digit_char((rest % 10) as int)];
            if rest >= 10 {
                assert(decimal(rest as nat) + s@ =~= decimal((rest / 10) as nat) + (d + s@));
            } else {
                assert(decimal(rest as nat) + s@ =~= d + s@);
            }
        }
        s = head.concat(s.as_str());
        rest = rest / 10;
    }
    s
}

/// A number given in thousandths, as a decimal number with three places
/// after the point.
pub open spec fn thousandths(n: nat) -> Seq<char> {
    decimal(n / 1000) + seq![
        '.',
        digit_char((n / 100 % 10) as int),
        digit_char((n / 10 % 10) as int),
        digit_char((n % 10) as int),
    ]
}

/// Renders a number given in thousandths with three places after the point.
pub fn thousandths_string(n: u128) -> (s: String)
    ensures
        s@ == thousandths(n as nat),
{
    let mut s = decimal_string(n / 1000);
    proof {
        reveal_strlit(".");
    }
    s.append(".");
    s.append(digit_text((n / 100 % 10) as usize));
    s.append(digit_text((n / 10 % 10) as usize));
    s.append(digit_text((n % 10) as usize));
    assert(s@ =~= thousandths(n as nat));
    s
}

} // verus!
