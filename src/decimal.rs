//! Decimal text of exact fractions, rounded to two places.

use vstd::prelude::*;
use vstd::string::*;
use crate::grading::Fraction;

verus! {

/// Relies on `String::push`: appends one character at the end.
#[verifier::external_body]
pub(crate) fn push_char(s: &mut String, c: char)
    ensures
        final(s)@ == old(s)@.push(c),
{
    s.push(c)
}

/// The character of a decimal digit.
pub open spec fn digit_char(d: int) -> char {
    if d == 0 {
        '0'
    } else if d == 1 {
        '1'
    } else if d == 2 {
        '2'
    } else if d == 3 {
        '3'
    } else if d == 4 {
        '4'
    } else if d == 5 {
        '5'
    } else if d == 6 {
        '6'
    } else if d == 7 {
        '7'
    } else if d == 8 {
        '8'
    } else {
        '9'
    }
}

/// The decimal digits of a natural number, without leading zeros.
pub open spec fn decimal(n: nat) -> Seq<char>
    decreases n,
{
    if n < 10 {
        seq![digit_char(n as int)]
    } else {
        decimal(n / 10).push(digit_char((n % 10) as int))
    }
}

/// `num / den` rounded to the nearest hundredth, halves away from zero.
pub open spec fn rounded_hundredths(num: int, den: int) -> nat {
    let a = if num < 0 { -num } else { num };
    ((200 * a + den) / (2 * den)) as nat
}

/// `num / den` written with two decimal places, a minus sign only when the
/// rounded value is not zero.
pub open spec fn fixed2(num: int, den: int) -> Seq<char> {
    let c = rounded_hundredths(num, den);
    let sign = if num < 0 && c > 0 { "-"@ } else { ""@ };
    sign + decimal(c / 100) + seq!['.', digit_char(((c / 10) % 10) as int), digit_char((c % 10) as int)]
}

fn digit(d: u128) -> (r: char)
    requires
        d < 10,
    ensures
        r == digit_char(d as int),
{
    if d == 0 {
        '0'
    } else if d == 1 {
        '1'
    } else if d == 2 {
        '2'
    } else if d == 3 {
        '3'
    } else if d == 4 {
        '4'
    } else if d == 5 {
        '5'
    } else if d == 6 {
        '6'
    } else if d == 7 {
        '7'
    } else if d == 8 {
        '8'
    } else {
        '9'
    }
}

/// Appends the decimal digits of `n`.
pub fn push_decimal(s: &mut String, n: u128)
    ensures
        final(s)@ == old(s)@ + decimal(n as nat),
    decreases n,
{
    if n >= 10 {
        push_decimal(s, n / 10);
    }
    push_char(s, digit(n % 10));
    proof {
        if n < 10 {
            assert(old(s)@ + decimal(n as nat) =~= old(s)@.push(digit_char(n as int)));
        } else {
            assert(old(s)@ + decimal(n as nat) =~= (old(s)@ + decimal((n / 10) as nat)).push(
                digit_char((n % 10) as int),
            ));
        }
    }
}

/// `f` written with two decimal places.
pub fn format_fraction(f: Fraction) -> (r: String)
    requires
        f.wf(),
    ensures
        r@ == fixed2(f.num as int, f.den as int),
{
    let a: u128 = if f.num < 0 {
        (-f.num) as u128
    } else {
        f.num as u128
    };
    let c: u128 = (200 * a + f.den) / (2 * f.den);
    let mut s = String::new();
    if f.num < 0 && c > 0 {
        push_char(&mut s, '-');
    }
    push_decimal(&mut s, c / 100);
    push_char(&mut s, '.');
    push_char(&mut s, digit((c / 10) % 10));
    push_char(&mut s, digit(c % 10));
    proof {
        reveal_strlit("-");
        reveal_strlit("");
        assert(s@ =~= fixed2(f.num as int, f.den as int));
    }
    s
}

} // verus!
