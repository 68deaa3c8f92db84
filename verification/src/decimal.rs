//! Decimal notation for integers.

use vstd::prelude::*;
use vstd::string::StringExecFns;

verus! {

/// The character for one decimal digit.
pub open spec fn digit_char(d: int) -> char
    recommends
        0 <= d <= 9,
{
    if d == 0 {
        '0'
    } else if d == 1 {
        '1'
    } else if d == 2 {
        '2'
    } else if d == 3 {
        '3'
    } else if d == 4 {
        '4'
    } else if d == 5 {
        '5'
    } else if d == 6 {
        '6'
    } else if d == 7 {
        '7'
    } else if d == 8 {
        '8'
    } else {
        '9'
    }
}

/// A natural number in decimal notation, without leading zeros.
pub open spec fn decimal_nat(n: nat) -> Seq<char>
    decreases n,
{
    if n < 10 {
        seq![digit_char(n as int)]
    } else {
        decimal_nat(n / 10).push(digit_char((n % 10) as int))
    }
}

/// An integer in decimal notation, with a leading `-` when negative.
pub open spec fn decimal_int(n: int) -> Seq<char> {
    if n < 0 {
        seq!['-'] + decimal_nat((-n) as nat)
    } else {
        decimal_nat(n as nat)
    }
}

/// Whether a character is a decimal digit.
pub open spec fn is_digit(c: char) -> bool {
    exists|d: int| 0 <= d <= 9 && c == digit_char(d)
}

/// Every number has at least one digit, and is written in digits only.
pub proof fn lemma_decimal_nat_digits(n: nat)
    ensures
        decimal_nat(n).len() > 0,
        forall|i: int| 0 <= i < decimal_nat(n).len() ==> is_digit(#[trigger] decimal_nat(n)[i]),
    decreases n,
{
    if n < 10 {
        assert(is_digit(digit_char(n as int)));
    } else {
        lemma_decimal_nat_digits(n / 10);
        assert(is_digit(digit_char((n % 10) as int)));
    }
}

/// The notation of an integer is never empty; it begins with a digit or
/// with `-` and ends with a digit, so it holds no word.
pub proof fn lemma_decimal_int_is_no_word(n: int)
    ensures
        decimal_int(n).len() > 0,
        is_digit(decimal_int(n).first()) || decimal_int(n).first() == '-',
        is_digit(decimal_int(n).last()),
{
    if n >= 0 {
        lemma_decimal_nat_digits(n as nat);
    } else {
        lemma_decimal_nat_digits((-n) as nat);
        let digits = decimal_nat((-n) as nat);
        assert(decimal_int(n).last() == digits[digits.len() - 1]);
    }
}

fn digit_text(d: u64) -> (text: &'static str)
    requires
        d <= 9,
    ensures
        text@ == seq![digit_char(d as int)],
{
    proof {
        reveal_strlit("0");
        reveal_strlit("1");
        reveal_strlit("2");
        reveal_strlit("3");
        reveal_strlit("4");
        reveal_strlit("5");
        reveal_strlit("6");
        reveal_strlit("7");
        reveal_strlit("8");
        reveal_strlit("9");
    }
    if d == 0 {
        "0"
    } else if d == 1 {
        "1"
    } else if d == 2 {
        "2"
    } else if d == 3 {
        "3"
    } else if d == 4 {
        "4"
    } else if d == 5 {
        "5"
    } else if d == 6 {
        "6"
    } else if d == 7 {
        "7"
    } else if d == 8 {
        "8"
    } else {
        "9"
    }
}

/// Writes an unsigned number in decimal notation.
pub fn unsigned_to_decimal(n: u64) -> (text: String)
    ensures
        text@ == decimal_nat(n as nat),
    decreases n,
{
    if n < 10 {
        String::from_str(digit_text(n))
    } else {
        let mut text = unsigned_to_decimal(n / 10);
        text.append(digit_text(n % 10));
        text
    }
}

/// Writes a signed number in decimal notation.
pub fn signed_to_decimal(n: i64) -> (text: String)
    ensures
        text@ == decimal_int(n as int),
{
    if n >= 0 {
        unsigned_to_decimal(n as u64)
    } else {
        // -(n + 1) cannot overflow, unlike -n at the smallest value.
        let magnitude: u64 = ((-(n + 1)) as u64) + 1;
        let digits = unsigned_to_decimal(magnitude);
        proof {
            reveal_strlit("-");
        }
        let mut text = String::from_str("-");
        text.append(digits.as_str());
        text
    }
}

} // verus!
