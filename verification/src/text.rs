//! Rendering numbers as text.

use vstd::prelude::*;
use vstd::string::*;

verus! {

/// The sixteen digits in the order of their values, letters in upper case.
pub open spec fn digit_chars() -> Seq<char> {
    seq!['0', '1', '2', '3', '4', '5', '6', '7', '8', '9', 'A', 'B', 'C', 'D', 'E', 'F']
}

/// The character that stands for the digit value `d`, for `d` below sixteen.
pub open spec fn digit_char(d: int) -> char
    recommends
        0 <= d < 16,
{
    digit_chars()[d]
}

/// A number below 65536 as exactly four upper-case hexadecimal digits.
pub open spec fn hex4_spec(v: u16) -> Seq<char> {
    seq![
        digit_char(v as int / 4096),
        digit_char(v as int / 256 % 16),
        digit_char(v as int / 16 % 16),
        digit_char(v as int % 16),
    ]
}

/// A natural number in decimal, without leading zeros.
pub open spec fn decimal_spec(n: nat) -> Seq<char>
    decreases n,
{
    if n < 10 {
        seq![digit_char(n as int)]
    } else {
        decimal_spec(n / 10).push(digit_char((n % 10) as int))
    }
}

/// The one-character text of a digit.
fn digit_text(d: u8) -> (s: &'static str)
    requires
        d < 16,
    ensures
        s@ == seq![digit_char(d as int)],
{
    proof {
        reveal_strlit("0");
        reveal_strlit("1");
        reveal_strlit("2");
        reveal_strlit("3");
        reveal_strlit("4");
        reveal_strlit("5");
        reveal_strlit("6");
        reveal_strlit("7");
        reveal_strlit("8");
        reveal_strlit("9");
        reveal_strlit("A");
        reveal_strlit("B");
        reveal_strlit("C");
        reveal_strlit("D");
        reveal_strlit("E");
        reveal_strlit("F");
    }
    let s: &'static str = match d {
        0 => "0",
        1 => "1",
        2 => "2",
        3 => "3",
        4 => "4",
        5 => "5",
        6 => "6",
        7 => "7",
        8 => "8",
        9 => "9",
        10 => "A",
        11 => "B",
        12 => "C",
        13 => "D",
        14 => "E",
        _ => "F",
    };
    assert(s@ =~= seq![digit_char(d as int)]);
    s
}

/// Renders `v` as four upper-case hexadecimal digits, zero-padded.
pub fn hex4(v: u16) -> (s: String)
    ensures
        s@ == hex4_spec(v),
{
    let mut s = String::from_str(digit_text((v / 4096) as u8));
    s.append(digit_text((v / 256 % 16) as u8));
    s.append(digit_text((v / 16 % 16) as u8));
    s.append(digit_text((v % 16) as u8));
    assert(s@ =~= hex4_spec(v));
    s
}

/// Renders `n` in decimal, without leading zeros.
pub fn decimal(n: usize) -> (s: String)
    ensures
        s@ == decimal_spec(n as nat),
    decreases n,
{
    if n < 10 {
        String::from_str(digit_text(n as u8))
    } else {
        let mut s = decimal(n / 10);
        s.append(digit_text((n % 10) as u8));
        assert(s@ =~= decimal_spec(n as nat));
        s
    }
}

} // verus!
