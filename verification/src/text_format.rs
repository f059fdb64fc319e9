//! Decimal text formatting for the clock and battery read-outs.

use vstd::prelude::*;

verus! {

/// The decimal digit character for a value 0 to 9.
pub open spec fn digit_char(d: int) -> char {
    if d == 0 {
        '0'
    } else if d == 1 {
        '1'
    } else if d == 2 {
        '2'
    } else if d == 3 {
        '3'
    } else if d == 4 {
        '4'
    } else if d == 5 {
        '5'
    } else if d == 6 {
        '6'
    } else if d == 7 {
        '7'
    } else if d == 8 {
        '8'
    } else {
        '9'
    }
}

/// The decimal text of a value 0 to 255, zero-padded on the left to at
/// least two digits.
pub open spec fn two_padded_decimal(n: int) -> Seq<char> {
    if n <= 99 {
        seq![digit_char(n / 10), digit_char(n % 10)]
    } else {
        seq![digit_char(n / 100), digit_char(n / 10 % 10), digit_char(n % 10)]
    }
}

/// The one-character text of a decimal digit.
fn digit_text(d: u8) -> (r: &'static str)
    requires
        d <= 9,
    ensures
        r@ == seq![digit_char(d as int)],
{
    proof {
        reveal_strlit("0");
        reveal_strlit("1");
        reveal_strlit("2");
        reveal_strlit("3");
        reveal_strlit("4");
        reveal_strlit("5");
        reveal_strlit("6");
        reveal_strlit("7");
        reveal_strlit("8");
        reveal_strlit("9");
    }
    if d == 0 {
        "0"
    } else if d == 1 {
        "1"
    } else if d == 2 {
        "2"
    } else if d == 3 {
        "3"
    } else if d == 4 {
        "4"
    } else if d == 5 {
        "5"
    } else if d == 6 {
        "6"
    } else if d == 7 {
        "7"
    } else if d == 8 {
        "8"
    } else {
        "9"
    }
}

/// Format a value as decimal text, zero-padded to at least two digits.
pub fn two_padded_decimal_text(n: u8) -> (r: String)
    ensures
        r@ == two_padded_decimal(n as int),
{
    let mut text = String::new();
    if n > 99 {
        text.append(digit_text(n / 100));
    } else {
        proof {
            vstd::arithmetic::div_mod::lemma_small_mod((n / 10) as nat, 10);
        }
    }
    text.append(digit_text(n / 10 % 10));
    text.append(digit_text(n % 10));
    proof {
        assert(text@ =~= two_padded_decimal(n as int));
    }
    text
}

} // verus!
