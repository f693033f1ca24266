//! Decimal text for fixed-point quantities.

use vstd::prelude::*;
use crate::fixed_point::Milli;

verus! {

/// The character that stands for one decimal digit.
pub open spec fn digit(d: nat) -> char {
    if d == 0 {
        '0'
    } else if d == 1 {
        '1'
    } else if d == 2 {
        '2'
    } else if d == 3 {
        '3'
    } else if d == 4 {
        '4'
    } else if d == 5 {
        '5'
    } else if d == 6 {
        '6'
    } else if d == 7 {
        '7'
    } else if d == 8 {
        '8'
    } else {
        '9'
    }
}

/// A natural number in decimal, without sign or leading zeros.
pub open spec fn decimal_text(n: nat) -> Seq<char>
    decreases n,
{
    if n < 10 {
        seq![digit(n)]
    } else {
        decimal_text(n / 10).push(digit(n % 10))
    }
}

/// A count of thousandths rounded to tenths. A value exactly halfway
/// between two tenths goes to the even one.
pub open spec fn rounded_tenths(thousandths: nat) -> nat {
    let tenths = thousandths / 100;
    let rest = thousandths % 100;
    if rest > 50 || (rest == 50 && tenths % 2 == 1) {
        tenths + 1
    } else {
        tenths
    }
}

/// A count of thousandths written with one digit after the decimal point,
/// as in `80.0` or `12.3`.
pub open spec fn one_decimal_text(thousandths: nat) -> Seq<char> {
    let tenths = rounded_tenths(thousandths);
    decimal_text(tenths / 10) + seq!['.', digit(tenths % 10)]
}

/// `String::push` of the standard library: the text afterwards is the text
/// before with `c` added at its end.
#[verifier::external_body]
pub(crate) fn push_char(text: &mut String, c: char)
    ensures
        final(text)@ == old(text)@.push(c),
{
    text.push(c);
}

fn digit_char(d: u8) -> (c: char)
    requires
        d < 10,
    ensures
        c == digit(d as nat),
{
    match d {
        0 => '0',
        1 => '1',
        2 => '2',
        3 => '3',
        4 => '4',
        5 => '5',
        6 => '6',
        7 => '7',
        8 => '8',
        _ => '9',
    }
}

/// Appends `n` in decimal to `text`.
pub fn push_decimal(text: &mut String, n: u128)
    ensures
        final(text)@ == old(text)@ + decimal_text(n as nat),
    decreases n,
{
    if n >= 10 {
        push_decimal(text, n / 10);
    }
    push_char(text, digit_char((n % 10) as u8));
}

impl Milli {
    /// Appends this quantity to `text`, rounded to one digit after the
    /// decimal point.
    pub fn push_one_decimal(&self, text: &mut String)
        ensures
            final(text)@ == old(text)@ + one_decimal_text(self.thousandths as nat),
    {
        let mut tenths: u128 = self.thousandths / 100;
        let rest: u128 = self.thousandths % 100;
        if rest > 50 || (rest == 50 && tenths % 2 == 1) {
            tenths = tenths + 1;
        }
        push_decimal(text, tenths / 10);
        push_char(text, '.');
        push_char(text, digit_char((tenths % 10) as u8));
    }

    /// This quantity as text with one digit after the decimal point.
    pub fn to_one_decimal(&self) -> (text: String)
        ensures
            text@ == one_decimal_text(self.thousandths as nat),
    {
        let mut text = String::new();
        self.push_one_decimal(&mut text);
        text
    }
}

} // verus!
