//! Numbers as texts: hexadecimal, decimal and binary digits.

use vstd::prelude::*;
use vstd::string::StringExecFns;

verus! {

/// The character of a digit in base 16, in upper case.
pub open spec fn digit_char(d: nat) -> char
    recommends
        d < 16,
{
    if d == 0 {
        '0'
    } else if d == 1 {
        '1'
    } else if d == 2 {
        '2'
    } else if d == 3 {
        '3'
    } else if d == 4 {
        '4'
    } else if d == 5 {
        '5'
    } else if d == 6 {
        '6'
    } else if d == 7 {
        '7'
    } else if d == 8 {
        '8'
    } else if d == 9 {
        '9'
    } else if d == 10 {
        'A'
    } else if d == 11 {
        'B'
    } else if d == 12 {
        'C'
    } else if d == 13 {
        'D'
    } else if d == 14 {
        'E'
    } else {
        'F'
    }
}

/// A number in upper-case hexadecimal, without leading zeros.
pub open spec fn upper_hex(n: nat) -> Seq<char>
    decreases n,
{
    if n < 16 {
        seq![digit_char(n)]
    } else {
        upper_hex(n / 16).push(digit_char(n % 16))
    }
}

/// A number in decimal.
pub open spec fn decimal(n: nat) -> Seq<char>
    decreases n,
{
    if n < 10 {
        seq![digit_char(n)]
    } else {
        decimal(n / 10).push(digit_char(n % 10))
    }
}

/// A number in binary, without leading zeros.
pub open spec fn binary(n: nat) -> Seq<char>
    decreases n,
{
    if n < 2 {
        seq![digit_char(n)]
    } else {
        binary(n / 2).push(digit_char(n % 2))
    }
}

/// A number in binary, with zeros in front where it has less than four
/// digits.
pub open spec fn binary_of_four(n: nat) -> Seq<char> {
    if n < 2 {
        "000"@ + binary(n)
    } else if n < 4 {
        "00"@ + binary(n)
    } else if n < 8 {
        "0"@ + binary(n)
    } else {
        binary(n)
    }
}

/// The text of one digit.
pub fn digit_text(d: usize) -> (r: &'static str)
    requires
        d < 16,
    ensures
        r@ == seq![digit_char(d as nat)],
{
    proof {
        reveal_strlit("0");
        reveal_strlit("1");
        reveal_strlit("2");
        reveal_strlit("3");
        reveal_strlit("4");
        reveal_strlit("5");
        reveal_strlit("6");
        reveal_strlit("7");
        reveal_strlit("8");
        reveal_strlit("9");
        reveal_strlit("A");
        reveal_strlit("B");
        reveal_strlit("C");
        reveal_strlit("D");
        reveal_strlit("E");
        reveal_strlit("F");
    }
    let text = match d {
        0 => "0",
        1 => "1",
        2 => "2",
        3 => "3",
        4 => "4",
        5 => "5",
        6 => "6",
        7 => "7",
        8 => "8",
        9 => "9",
        10 => "A",
        11 => "B",
        12 => "C",
        13 => "D",
        14 => "E",
        _ => "F",
    };
    assert(text@ =~= seq![digit_char(d as nat)]);
    text
}

/// A number in upper-case hexadecimal, without leading zeros.
pub fn format_hex(n: usize) -> (r: String)
    ensures
        r@ == upper_hex(n as nat),
    decreases n,
{
    if n < 16 {
        String::from_str(digit_text(n))
    } else {
        let mut text = format_hex(n / 16);
        text.append(digit_text(n % 16));
        text
    }
}

/// A number in decimal.
pub fn format_decimal(n: usize) -> (r: String)
    ensures
        r@ == decimal(n as nat),
    decreases n,
{
    if n < 10 {
        String::from_str(digit_text(n))
    } else {
        let mut text = format_decimal(n / 10);
        text.append(digit_text(n % 10));
        text
    }
}

/// A number in binary, without leading zeros.
pub fn format_binary(n: usize) -> (r: String)
    ensures
        r@ == binary(n as nat),
    decreases n,
{
    if n < 2 {
        String::from_str(digit_text(n))
    } else {
        let mut text = format_binary(n / 2);
        text.append(digit_text(n % 2));
        text
    }
}

/// A number in binary, with zeros in front where it has less than four
/// digits.
pub fn format_binary_of_four(n: usize) -> (r: String)
    ensures
        r@ == binary_of_four(n as nat),
{
    let mut text = if n < 2 {
        String::from_str("000")
    } else if n < 4 {
        String::from_str("00")
    } else if n < 8 {
        String::from_str("0")
    } else {
        String::new()
    };
    text.append(format_binary(n).as_str());
    text
}

} // verus!
