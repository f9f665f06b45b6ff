use qmk_notifier::{decimal, hex4, parse_hex_or_decimal, ParseFailure, QmkError};

#[test]
fn test_parse_hex_or_decimal_hex() {
    assert_eq!(parse_hex_or_decimal("0xFEED").unwrap(), 0xFEED);
    assert_eq!(parse_hex_or_decimal("0X1234").unwrap(), 0x1234);
}

#[test]
fn test_parse_hex_or_decimal_decimal() {
    assert_eq!(parse_hex_or_decimal("1234").unwrap(), 1234);
    assert_eq!(parse_hex_or_decimal("65261").unwrap(), 65261); // 0xFEED in decimal
}

#[test]
fn test_parse_hex_or_decimal_invalid() {
    assert!(parse_hex_or_decimal("0xGGGG").is_err());
    assert!(parse_hex_or_decimal("invalid").is_err());
    assert!(parse_hex_or_decimal("").is_err());
}

#[test]
fn parse_hex_takes_one_to_four_digits_of_either_case() {
    assert_eq!(parse_hex_or_decimal("0x0"), Ok(0));
    assert_eq!(parse_hex_or_decimal("0xf"), Ok(15));
    assert_eq!(parse_hex_or_decimal("0Xab"), Ok(0xAB));
    assert_eq!(parse_hex_or_decimal("0xAbC"), Ok(0xABC));
    assert_eq!(parse_hex_or_decimal("0xffff"), Ok(0xFFFF));
    assert_eq!(parse_hex_or_decimal("0x0061"), Ok(0x61));
    assert_eq!(parse_hex_or_decimal("0xFF60"), Ok(0xFF60));
}

#[test]
fn parse_decimal_takes_digits_up_to_the_largest_value() {
    assert_eq!(parse_hex_or_decimal("0"), Ok(0));
    assert_eq!(parse_hex_or_decimal("97"), Ok(97));
    assert_eq!(parse_hex_or_decimal("65535"), Ok(65535));
    assert_eq!(parse_hex_or_decimal("00012"), Ok(12));
    assert_eq!(parse_hex_or_decimal("0000000000000000000065535"), Ok(65535));
}

#[test]
fn parse_reports_empty_digits() {
    assert_eq!(
        parse_hex_or_decimal(""),
        Err(QmkError::InvalidDecimalValue("cannot parse integer from empty string".to_string()))
    );
    assert_eq!(
        parse_hex_or_decimal("0x"),
        Err(QmkError::InvalidHexValue("cannot parse integer from empty string".to_string()))
    );
    assert_eq!(
        parse_hex_or_decimal("0X"),
        Err(QmkError::InvalidHexValue("cannot parse integer from empty string".to_string()))
    );
}

#[test]
fn parse_reports_invalid_digits() {
    let hex = Err(QmkError::InvalidHexValue("invalid digit found in string".to_string()));
    let dec = Err(QmkError::InvalidDecimalValue("invalid digit found in string".to_string()));
    assert_eq!(parse_hex_or_decimal("0xGGGG"), hex);
    assert_eq!(parse_hex_or_decimal("0x12 "), hex);
    assert_eq!(parse_hex_or_decimal("0x+1"), hex);
    assert_eq!(parse_hex_or_decimal("0x12345G"), hex);
    assert_eq!(parse_hex_or_decimal("0x\u{e9}"), hex);
    assert_eq!(parse_hex_or_decimal("invalid"), dec);
    assert_eq!(parse_hex_or_decimal("+5"), dec);
    assert_eq!(parse_hex_or_decimal("-1"), dec);
    assert_eq!(parse_hex_or_decimal(" 12"), dec);
    assert_eq!(parse_hex_or_decimal("12a"), dec);
    assert_eq!(parse_hex_or_decimal("FEED"), dec);
    assert_eq!(parse_hex_or_decimal("x12"), dec);
    assert_eq!(parse_hex_or_decimal("1_000"), dec);
    assert_eq!(parse_hex_or_decimal("99999999x"), dec);
    assert_eq!(parse_hex_or_decimal("\u{663}"), dec);
    assert_eq!(parse_hex_or_decimal("1\u{e9}"), dec);
}

#[test]
fn parse_reports_numbers_out_of_range() {
    let hex =
        Err(QmkError::InvalidHexValue("number too large to fit in target type".to_string()));
    let dec =
        Err(QmkError::InvalidDecimalValue("number too large to fit in target type".to_string()));
    assert_eq!(parse_hex_or_decimal("65536"), dec);
    assert_eq!(parse_hex_or_decimal("70000"), dec);
    assert_eq!(parse_hex_or_decimal("99999999999999999999999999"), dec);
    assert_eq!(parse_hex_or_decimal("0x10000"), hex);
    assert_eq!(parse_hex_or_decimal("0xFFFFF"), hex);
    assert_eq!(parse_hex_or_decimal("0x00001"), hex);
}

#[test]
fn parse_failure_texts() {
    assert_eq!(ParseFailure::Empty.text(), "cannot parse integer from empty string");
    assert_eq!(ParseFailure::InvalidDigit.text(), "invalid digit found in string");
    assert_eq!(ParseFailure::TooLarge.text(), "number too large to fit in target type");
}

#[test]
fn hex4_pads_to_four_upper_case_digits() {
    assert_eq!(hex4(0), "0000");
    assert_eq!(hex4(0x61), "0061");
    assert_eq!(hex4(0xFEED), "FEED");
    assert_eq!(hex4(0xFF60), "FF60");
    assert_eq!(hex4(0xabc), "0ABC");
    assert_eq!(hex4(0xFFFF), "FFFF");
    assert_eq!(hex4(0x1234), "1234");
}

#[test]
fn decimal_has_no_leading_zeros() {
    assert_eq!(decimal(0), "0");
    assert_eq!(decimal(7), "7");
    assert_eq!(decimal(10), "10");
    assert_eq!(decimal(65535), "65535");
    assert_eq!(decimal(1002003), "1002003");
    assert_eq!(decimal(usize::MAX), usize::MAX.to_string());
}

#[test]
fn rendered_numbers_parse_back() {
    let mut v: u32 = 0;
    while v <= 0xFFFF {
        let n = v as u16;
        assert_eq!(parse_hex_or_decimal(&format!("0x{}", hex4(n))), Ok(n));
        assert_eq!(parse_hex_or_decimal(&decimal(n as usize)), Ok(n));
        v += 257;
    }
}
