//! Reading a 16-bit number from an argument, in hexadecimal or in decimal.

use vstd::prelude::*;
use vstd::string::*;
use crate::error::{agrees, ErrorView, QmkError};
use crate::text::{decimal_spec, digit_char, hex4_spec};

verus! {

/// Why a run of digits is no 16-bit number.
#[derive(Clone, Copy, Debug, PartialEq, Eq, Structural)]
pub enum ParseFailure {
    /// There is no digit at all.
    Empty,
    /// Some character is no digit of the radix.
    InvalidDigit,
    /// The digits are too many, or their value is above 65535.
    TooLarge,
}

impl ParseFailure {
    /// The text that an error carries for this failure.
    pub open spec fn text_spec(self) -> Seq<char> {
        match self {
            ParseFailure::Empty => "cannot parse integer from empty string"@,
            ParseFailure::InvalidDigit => "invalid digit found in string"@,
            ParseFailure::TooLarge => "number too large to fit in target type"@,
        }
    }

    /// The text that an error carries for this failure.
    pub fn text(&self) -> (s: String)
        ensures
            s@ == self.text_spec(),
    {
        match self {
            ParseFailure::Empty => String::from_str("cannot parse integer from empty string"),
            ParseFailure::InvalidDigit => String::from_str("invalid digit found in string"),
            ParseFailure::TooLarge => String::from_str("number too large to fit in target type"),
        }
    }
}

/// The value of a character as a digit: `0`-`9`, `a`-`f` and `A`-`F` count 0 to 15.
pub open spec fn digit_value(c: char) -> Option<nat> {
    if '0' <= c <= '9' {
        Some((c as int - '0' as int) as nat)
    } else if 'a' <= c <= 'f' {
        Some((c as int - 'a' as int + 10) as nat)
    } else if 'A' <= c <= 'F' {
        Some((c as int - 'A' as int + 10) as nat)
    } else {
        None
    }
}

/// Whether `c` is a digit in the given radix.
pub open spec fn is_digit(c: char, radix: nat) -> bool {
    digit_value(c) matches Some(d) && d < radix
}

/// Whether every character of `s` is a digit in the given radix.
pub open spec fn all_digits(s: Seq<char>, radix: nat) -> bool {
    forall|i: int| 0 <= i < s.len() ==> is_digit(#[trigger] s[i], radix)
}

/// The number that the digits `s` denote in the given radix, most significant digit first.
pub open spec fn digits_value(s: Seq<char>, radix: nat) -> nat
    decreases s.len(),
{
    if s.len() == 0 {
        0
    } else {
        digits_value(s.drop_last(), radix) * radix + digit_value(s.last()).unwrap_or(0)
    }
}

/// The radix of a run of digits: sixteen after the prefix, ten without it.
pub open spec fn radix_of(hex: bool) -> nat {
    if hex {
        16
    } else {
        10
    }
}

/// What a run of digits stands for.  It is a number if it has at least one
/// character, all its characters are digits of the radix, a hexadecimal run
/// has at most four of them, and the value is at most 65535.
pub open spec fn parse_digits_spec(s: Seq<char>, hex: bool) -> Result<u16, ParseFailure> {
    if s.len() == 0 {
        Err(ParseFailure::Empty)
    } else if !all_digits(s, radix_of(hex)) {
        Err(ParseFailure::InvalidDigit)
    } else if (hex && s.len() > 4) || digits_value(s, radix_of(hex)) > 65535 {
        Err(ParseFailure::TooLarge)
    } else {
        Ok(digits_value(s, radix_of(hex)) as u16)
    }
}

/// Whether `s` begins with `0x` or `0X`.
pub open spec fn has_hex_prefix(s: Seq<char>) -> bool {
    s.len() >= 2 && s[0] == '0' && (s[1] == 'x' || s[1] == 'X')
}

/// What an argument stands for: with the prefix the rest is read in
/// hexadecimal, without it the whole is read in decimal.
pub open spec fn parse_hex_or_decimal_spec(s: Seq<char>) -> Result<u16, ErrorView> {
    if has_hex_prefix(s) {
        match parse_digits_spec(s.skip(2), true) {
            Ok(v) => Ok(v),
            Err(f) => Err(ErrorView::InvalidHexValue(f.text_spec())),
        }
    } else {
        match parse_digits_spec(s, false) {
            Ok(v) => Ok(v),
            Err(f) => Err(ErrorView::InvalidDecimalValue(f.text_spec())),
        }
    }
}

/// Whether the bytes are the characters of `s`, one byte for each.
pub open spec fn spells(bytes: Seq<u8>, s: Seq<char>) -> bool {
    &&& bytes.len() == s.len()
    &&& forall|i: int| 0 <= i < s.len() ==> #[trigger] s[i] == bytes[i] as char
}

/// The value of a byte as a digit.
fn byte_digit(b: u8) -> (d: Option<u8>)
    ensures
        match d {
            Some(v) => digit_value(b as char) == Some(v as nat),
            None => digit_value(b as char) is None,
        },
{
    if 48 <= b && b <= 57 {
        Some(b - 48)
    } else if 97 <= b && b <= 102 {
        Some(b - 97 + 10)
    } else if 65 <= b && b <= 70 {
        Some(b - 65 + 10)
    } else {
        None
    }
}

/// Reads the digits that begin at `start` in the bytes of the ASCII text `s`.
fn scan_digits(bytes: &[u8], start: usize, hex: bool, Ghost(s): Ghost<Seq<char>>) -> (r: Result<
    u16,
    ParseFailure,
>)
    requires
        start <= bytes.len(),
        spells(bytes@, s),
    ensures
        r == parse_digits_spec(s.skip(start as int), hex),
{
    let ghost digits = s.skip(start as int);
    let ghost radix = radix_of(hex);
    if start == bytes.len() {
        return Err(ParseFailure::Empty);
    }
    let limit: u8 = if hex { 16 } else { 10 };
    let mut acc: u32 = 0;
    let mut too_large = false;
    let mut i: usize = start;
    while i < bytes.len()
        invariant
            start <= i <= bytes.len(),
            start < bytes.len(),
            spells(bytes@, s),
            digits == s.skip(start as int),
            radix == radix_of(hex),
            limit == radix,
            all_digits(digits.take(i - start), radix),
            !too_large ==> acc == digits_value(digits.take(i - start), radix) && acc <= 65535,
            !too_large && hex ==> i - start <= 4,
            too_large ==> (hex && i - start > 4) || digits_value(digits.take(i - start), radix)
                > 65535,
        decreases bytes.len() - i,
    {
        let ghost before = digits.take(i - start);
        let ghost after = digits.take(i - start + 1);
        let b: u8 = bytes[i];
        assert(b as char == s[i as int]);
        assert(digits[i - start] == s[i as int]);
        assert(after.drop_last() =~= before);
        assert(after.last() == s[i as int]);
        match byte_digit(b) {
            Some(d) if d < limit => {
                assert(is_digit(s[i as int], radix));
                assert(digits_value(after, radix) == digits_value(before, radix) * radix + d);
                assert(digits_value(before, radix) * radix >= digits_value(before, radix))
                    by (nonlinear_arith)
                    requires
                        radix >= 1,
                ;
                if !too_large {
                    let next: u32 = acc * (limit as u32) + (d as u32);
                    if next > 65535 || (hex && i - start >= 4) {
                        too_large = true;
                    } else {
                        acc = next;
                    }
                }
                assert forall|k: int| 0 <= k < after.len() implies is_digit(
                    #[trigger] after[k],
                    radix,
                ) by {
                    if k < before.len() {
                        assert(after[k] == before[k]);
                    }
                }
            },
            _ => {
                assert(!is_digit(digits[i - start], radix));
                return Err(ParseFailure::InvalidDigit);
            },
        }
        i = i + 1;
    }
    assert(digits.take(i - start) =~= digits);
    if too_large {
        Err(ParseFailure::TooLarge)
    } else {
        Ok(acc as u16)
    }
}

/// The error for digits that are no number, after the prefix (`hex`) or without it.
fn refusal(hex: bool, failure: ParseFailure) -> (e: QmkError)
    ensures
        e@ == if hex {
            ErrorView::InvalidHexValue(failure.text_spec())
        } else {
            ErrorView::InvalidDecimalValue(failure.text_spec())
        },
{
    if hex {
        QmkError::InvalidHexValue(failure.text())
    } else {
        QmkError::InvalidDecimalValue(failure.text())
    }
}

/// Parses an argument as a 16-bit number: in hexadecimal after the prefix
/// `0x` or `0X`, in decimal otherwise.
///
/// The result is exactly [`parse_hex_or_decimal_spec`]: a number comes back
/// for a prefix followed by one to four hexadecimal digits, and for decimal
/// digits whose value is at most 65535; every other argument is refused, with
/// `InvalidHexValue` after the prefix and `InvalidDecimalValue` without it,
/// and with the text of the [`ParseFailure`] that says why.
pub fn parse_hex_or_decimal(input: &str) -> (r: Result<u16, QmkError>)
    ensures
        agrees(r, parse_hex_or_decimal_spec(input@)),
{
    let ghost s = input@;
    if input.is_ascii() {
        let bytes = input.as_bytes();
        proof {
            vstd::string::is_ascii_spec_bytes(input);
            assert forall|i: int| 0 <= i < s.len() implies #[trigger] s[i] == bytes@[i] as char by {
                assert('\0' <= s[i] <= '\u{7f}');
            }
        }
        let hex = bytes.len() >= 2 && bytes[0] == 48 && (bytes[1] == 120 || bytes[1] == 88);
        assert(hex == has_hex_prefix(s));
        let start: usize = if hex { 2 } else { 0 };
        assert(s.skip(0) =~= s);
        match scan_digits(bytes, start, hex, Ghost(s)) {
            Ok(v) => Ok(v),
            Err(failure) => Err(refusal(hex, failure)),
        }
    } else {
        // A character outside ASCII is no digit, and it is not part of the prefix.
        let n: usize = input.unicode_len();
        let hex = n >= 2 && input.get_char(0) == '0' && (input.get_char(1) == 'x' || input.get_char(
            1,
        ) == 'X');
        proof {
            let i = choose|i: int| 0 <= i < s.len() && !('\0' <= #[trigger] s[i] <= '\u{7f}');
            if hex {
                assert(s.skip(2)[i - 2] == s[i]);
                assert(!is_digit(s.skip(2)[i - 2], 16));
            } else {
                assert(!is_digit(s[i], 10));
            }
        }
        Err(refusal(hex, ParseFailure::InvalidDigit))
    }
}

/// A prefix `0x` or `0X` followed by one to four hexadecimal digits.
pub open spec fn is_hex_literal(s: Seq<char>) -> bool {
    has_hex_prefix(s) && 3 <= s.len() <= 6 && all_digits(s.skip(2), 16)
}

/// One or more decimal digits whose value is at most 65535.
pub open spec fn is_decimal_literal(s: Seq<char>) -> bool {
    s.len() >= 1 && all_digits(s, 10) && digits_value(s, 10) <= 65535
}

/// `radix` to the power of `n`.
pub open spec fn power(radix: nat, n: nat) -> nat
    decreases n,
{
    if n == 0 {
        1
    } else {
        power(radix, (n - 1) as nat) * radix
    }
}

/// A run of `n` digits denotes a number below the `n`-th power of the radix.
pub proof fn lemma_value_below_power(s: Seq<char>, radix: nat)
    requires
        all_digits(s, radix),
    ensures
        digits_value(s, radix) < power(radix, s.len()),
    decreases s.len(),
{
    if s.len() > 0 {
        let front = s.drop_last();
        assert forall|i: int| 0 <= i < front.len() implies is_digit(#[trigger] front[i], radix) by {
            assert(front[i] == s[i]);
        }
        lemma_value_below_power(front, radix);
        assert(is_digit(s[s.len() - 1], radix));
        let v = digits_value(front, radix);
        let p = power(radix, front.len());
        let d = digit_value(s.last()).unwrap_or(0);
        assert(v * radix + d < p * radix) by (nonlinear_arith)
            requires
                v < p,
                d < radix,
        ;
    }
}

/// The parser accepts exactly the hexadecimal and the decimal literals, and
/// gives each the number that its digits denote: a prefix `0x` or `0X` with
/// one to four hexadecimal digits stands for their value in radix sixteen,
/// decimal digits whose value is at most 65535 stand for that value, and
/// every other text is refused.
pub proof fn lemma_parse_accepts_exactly_literals(s: Seq<char>)
    ensures
        is_hex_literal(s) ==> digits_value(s.skip(2), 16) <= 65535 && parse_hex_or_decimal_spec(s)
            == Ok::<u16, ErrorView>(digits_value(s.skip(2), 16) as u16),
        is_decimal_literal(s) ==> parse_hex_or_decimal_spec(s) == Ok::<u16, ErrorView>(
            digits_value(s, 10) as u16,
        ),
        !is_hex_literal(s) && !is_decimal_literal(s) ==> parse_hex_or_decimal_spec(s) is Err,
{
    if is_hex_literal(s) {
        let digits = s.skip(2);
        lemma_value_below_power(digits, 16);
        reveal_with_fuel(power, 5);
        assert(power(16, digits.len()) <= 65536);
    }
    if is_decimal_literal(s) {
        if has_hex_prefix(s) {
            assert(!is_digit(s[1], 10));
        }
    }
}

/// The character of a digit has that digit's value.
pub proof fn lemma_digit_char_value(d: int)
    requires
        0 <= d < 16,
    ensures
        digit_value(digit_char(d)) == Some(d as nat),
{
}

/// A number written in decimal is a run of decimal digits that denotes it.
pub proof fn lemma_decimal_denotes(n: nat)
    ensures
        decimal_spec(n).len() >= 1,
        all_digits(decimal_spec(n), 10),
        digits_value(decimal_spec(n), 10) == n,
    decreases n,
{
    let s = decimal_spec(n);
    lemma_digit_char_value((n % 10) as int);
    if n < 10 {
        assert(s.drop_last() =~= Seq::<char>::empty());
        assert(digits_value(s.drop_last(), 10) == 0);
    } else {
        lemma_decimal_denotes(n / 10);
        let front = decimal_spec(n / 10);
        assert(s.drop_last() =~= front);
        assert forall|i: int| 0 <= i < s.len() implies is_digit(#[trigger] s[i], 10) by {
            if i < front.len() {
                assert(s[i] == front[i]);
            }
        }
    }
}

/// What the tool writes it also reads: a 16-bit number written as `0x` and
/// four hexadecimal digits, or written in decimal, is parsed as that number.
pub proof fn lemma_rendered_numbers_parse_back(v: u16)
    ensures
        parse_hex_or_decimal_spec("0x"@ + hex4_spec(v)) == Ok::<u16, ErrorView>(v),
        parse_hex_or_decimal_spec(decimal_spec(v as nat)) == Ok::<u16, ErrorView>(v),
{
    reveal_strlit("0x");
    let hex = "0x"@ + hex4_spec(v);
    let digits = hex.skip(2);
    let d3 = v as int / 4096;
    let d2 = v as int / 256 % 16;
    let d1 = v as int / 16 % 16;
    let d0 = v as int % 16;
    lemma_digit_char_value(d3);
    lemma_digit_char_value(d2);
    lemma_digit_char_value(d1);
    lemma_digit_char_value(d0);
    assert(digits =~= hex4_spec(v));
    let three = digits.drop_last();
    let two = three.drop_last();
    let one = two.drop_last();
    assert(one.drop_last() =~= Seq::<char>::empty());
    assert(digits_value(one.drop_last(), 16) == 0);
    assert(digits_value(one, 16) == d3);
    assert(digits_value(two, 16) == d3 * 16 + d2);
    assert(digits_value(three, 16) == (d3 * 16 + d2) * 16 + d1);
    assert(digits_value(digits, 16) == ((d3 * 16 + d2) * 16 + d1) * 16 + d0);
    assert(digits_value(digits, 16) == v);
    assert(has_hex_prefix(hex));

    lemma_decimal_denotes(v as nat);
    let dec = decimal_spec(v as nat);
    if has_hex_prefix(dec) {
        assert(!is_digit(dec[1], 10));
    }
}

} // verus!
