//! Decimal display of engineering values.

use vstd::prelude::*;
use vstd::string::StringExecFns;
use crate::scale::HALF_SAMPLE;
use crate::phase::SUBSAMPLE;

verus! {

/// The numeral of a single digit.
pub open spec fn digit(d: int) -> Seq<char> {
    if d == 0 {
        "0"@
    } else if d == 1 {
        "1"@
    } else if d == 2 {
        "2"@
    } else if d == 3 {
        "3"@
    } else if d == 4 {
        "4"@
    } else if d == 5 {
        "5"@
    } else if d == 6 {
        "6"@
    } else if d == 7 {
        "7"@
    } else if d == 8 {
        "8"@
    } else {
        "9"@
    }
}

/// The decimal numeral of a natural number, without leading zeros.
pub open spec fn decimal(n: nat) -> Seq<char>
    decreases n,
{
    if n < 10 {
        digit(n as int)
    } else {
        decimal(n / 10) + digit((n % 10) as int)
    }
}

/// An engineering value in hundredths of a unit, to the nearest hundredth
/// with halves rounded up.
pub open spec fn hundredths(value: int) -> int {
    (value * 100 + HALF_SAMPLE) / (SUBSAMPLE as int)
}

/// An engineering value written with two decimal places.
pub open spec fn two_places(value: int) -> Seq<char> {
    let h = hundredths(value);
    decimal((h / 100) as nat) + "."@ + digit(h / 10 % 10) + digit(h % 10)
}

fn digit_str(d: u64) -> (s: &'static str)
    requires
        d < 10,
    ensures
        s@ == digit(d as int),
{
    if d == 0 {
        "0"
    } else if d == 1 {
        "1"
    } else if d == 2 {
        "2"
    } else if d == 3 {
        "3"
    } else if d == 4 {
        "4"
    } else if d == 5 {
        "5"
    } else if d == 6 {
        "6"
    } else if d == 7 {
        "7"
    } else if d == 8 {
        "8"
    } else {
        "9"
    }
}

fn push_decimal(text: &mut String, n: u64)
    ensures
        final(text)@ == old(text)@ + decimal(n as nat),
    decreases n,
{
    if n >= 10 {
        push_decimal(text, n / 10);
    }
    text.append(digit_str(n % 10));
}

/// Writes an engineering value with two decimal places.
pub fn format_two_places(value: u64) -> (text: String)
    ensures
        text@ == two_places(value as int),
{
    let scaled: u128 = (value as u128) * 100 + (HALF_SAMPLE as u128);
    let h: u64 = (scaled / (SUBSAMPLE as u128)) as u64;
    let mut text = String::new();
    push_decimal(&mut text, h / 100);
    text.append(".");
    text.append(digit_str(h / 10 % 10));
    text.append(digit_str(h % 10));
    text
}

} // verus!
