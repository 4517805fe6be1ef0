//! Decimal rendering of the scaled metric values.
//!
//! Metric values are integers in hundredths; they are rendered with two
//! digits after the decimal point, e.g. `1234` becomes `"12.34"`.

use vstd::prelude::*;

verus! {

/// The decimal digit character for a value below ten.
pub open spec fn digit_char(d: nat) -> char {
    if d == 0 {
        '0'
    } else if d == 1 {
        '1'
    } else if d == 2 {
        '2'
    } else if d == 3 {
        '3'
    } else if d == 4 {
        '4'
    } else if d == 5 {
        '5'
    } else if d == 6 {
        '6'
    } else if d == 7 {
        '7'
    } else if d == 8 {
        '8'
    } else {
        '9'
    }
}

/// The decimal digit string of `n`, most significant digit first, with no
/// leading zeros (a lone zero for `n == 0`).
pub open spec fn spec_digits(n: nat) -> Seq<char>
    decreases n,
{
    if n < 10 {
        seq![digit_char(n)]
    } else {
        spec_digits(n / 10) + seq![digit_char(n % 10)]
    }
}

/// The fixed-point rendering of `n` hundredths: the integer part, a dot,
/// then exactly two fractional digits.
pub open spec fn spec_fixed2(n: nat) -> Seq<char> {
    spec_digits(n / 100) + seq!['.', digit_char((n / 10) % 10), digit_char(n % 10)]
}

/// The one-character string for a decimal digit.
fn digit_str(d: u64) -> (r: &'static str)
    requires
        d < 10,
    ensures
        r@ == seq![digit_char(d as nat)],
{
    proof {
        reveal_strlit("0");
        reveal_strlit("1");
        reveal_strlit("2");
        reveal_strlit("3");
        reveal_strlit("4");
        reveal_strlit("5");
        reveal_strlit("6");
        reveal_strlit("7");
        reveal_strlit("8");
        reveal_strlit("9");
    }
    let r: &'static str = if d == 0 {
        "0"
    } else if d == 1 {
        "1"
    } else if d == 2 {
        "2"
    } else if d == 3 {
        "3"
    } else if d == 4 {
        "4"
    } else if d == 5 {
        "5"
    } else if d == 6 {
        "6"
    } else if d == 7 {
        "7"
    } else if d == 8 {
        "8"
    } else {
        "9"
    };
    proof {
        assert(r@ =~= seq![digit_char(d as nat)]);
    }
    r
}

/// Renders `n` in decimal, most significant digit first.
pub fn u64_to_string(n: u64) -> (r: String)
    ensures
        r@ == spec_digits(n as nat),
    decreases n,
{
    if n < 10 {
        let r = String::from_str(digit_str(n));
        proof {
            assert(r@ =~= spec_digits(n as nat));
        }
        r
    } else {
        let mut s = u64_to_string(n / 10);
        s.append(digit_str(n % 10));
        proof {
            assert(s@ =~= spec_digits(n as nat));
        }
        s
    }
}

/// Renders `n` hundredths as a fixed-point decimal with two fractional
/// digits.
pub fn format_hundredths(n: u64) -> (r: String)
    ensures
        r@ == spec_fixed2(n as nat),
{
    let mut s = u64_to_string(n / 100);
    s.append(".");
    s.append(digit_str((n / 10) % 10));
    s.append(digit_str(n % 10));
    proof {
        reveal_strlit(".");
        assert(s@ =~= spec_fixed2(n as nat));
    }
    s
}

} // verus!
