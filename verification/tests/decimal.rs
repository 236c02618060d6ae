use pls::decimal::{parse_u64, u64_to_decimal};
use pls::IntegerError;
use std::num::IntErrorKind;

/// What std makes of the same text, in the library's terms.
fn std_parse(text: &str) -> Result<u64, IntegerError> {
    text.parse::<u64>().map_err(|e| match e.kind() {
        IntErrorKind::Empty => IntegerError::Empty,
        IntErrorKind::InvalidDigit => IntegerError::InvalidDigit,
        IntErrorKind::PosOverflow => IntegerError::PosOverflow,
        other => panic!("no u64 fails with {:?}", other),
    })
}

#[test]
fn decimal_of_small_numbers() {
    assert_eq!(u64_to_decimal(0), "0");
    assert_eq!(u64_to_decimal(7), "7");
    assert_eq!(u64_to_decimal(9), "9");
    assert_eq!(u64_to_decimal(10), "10");
    assert_eq!(u64_to_decimal(420), "420");
    assert_eq!(u64_to_decimal(1005), "1005");
}

#[test]
fn decimal_of_the_largest_number() {
    assert_eq!(u64_to_decimal(u64::MAX), "18446744073709551615");
}

#[test]
fn decimal_is_what_std_prints() {
    let mut n: u64 = 0;
    for step in 0..2000u64 {
        assert_eq!(u64_to_decimal(n), n.to_string());
        assert_eq!(u64_to_decimal(u64::MAX - n), (u64::MAX - n).to_string());
        n = n.wrapping_mul(31).wrapping_add(step * step + 1) % 10_000_000_019;
    }
    let mut power: u64 = 1;
    for _ in 0..19 {
        assert_eq!(u64_to_decimal(power), power.to_string());
        assert_eq!(u64_to_decimal(power - 1), (power - 1).to_string());
        power *= 10;
    }
}

#[test]
fn numbers_are_read() {
    assert_eq!(parse_u64("0"), Ok(0));
    assert_eq!(parse_u64("2"), Ok(2));
    assert_eq!(parse_u64("420"), Ok(420));
    assert_eq!(parse_u64("007"), Ok(7));
    assert_eq!(parse_u64("+5"), Ok(5));
    assert_eq!(parse_u64("18446744073709551615"), Ok(u64::MAX));
    assert_eq!(parse_u64("00000000000000000000000000018446744073709551615"), Ok(u64::MAX));
}

#[test]
fn empty_text_is_no_number() {
    assert_eq!(parse_u64(""), Err(IntegerError::Empty));
}

#[test]
fn other_characters_are_no_digits() {
    assert_eq!(parse_u64("-1"), Err(IntegerError::InvalidDigit));
    assert_eq!(parse_u64("-"), Err(IntegerError::InvalidDigit));
    assert_eq!(parse_u64("+"), Err(IntegerError::InvalidDigit));
    assert_eq!(parse_u64("++1"), Err(IntegerError::InvalidDigit));
    assert_eq!(parse_u64("1+"), Err(IntegerError::InvalidDigit));
    assert_eq!(parse_u64(" 1"), Err(IntegerError::InvalidDigit));
    assert_eq!(parse_u64("1 "), Err(IntegerError::InvalidDigit));
    assert_eq!(parse_u64("1_000"), Err(IntegerError::InvalidDigit));
    assert_eq!(parse_u64("0x10"), Err(IntegerError::InvalidDigit));
    assert_eq!(parse_u64("Abolish the Burgeoisie!"), Err(IntegerError::InvalidDigit));
    assert_eq!(parse_u64("\u{0663}"), Err(IntegerError::InvalidDigit));
    assert_eq!(parse_u64("\u{ff11}"), Err(IntegerError::InvalidDigit));
    assert_eq!(parse_u64("/"), Err(IntegerError::InvalidDigit));
    assert_eq!(parse_u64(":"), Err(IntegerError::InvalidDigit));
}

#[test]
fn too_large_numbers_overflow() {
    assert_eq!(parse_u64("18446744073709551616"), Err(IntegerError::PosOverflow));
    assert_eq!(parse_u64("18446744073709551620"), Err(IntegerError::PosOverflow));
    assert_eq!(parse_u64("+99999999999999999999"), Err(IntegerError::PosOverflow));
    assert_eq!(parse_u64("184467440737095516150"), Err(IntegerError::PosOverflow));
}

#[test]
fn the_first_obstacle_decides() {
    assert_eq!(parse_u64("99999999999999999999x"), Err(IntegerError::PosOverflow));
    assert_eq!(parse_u64("9999999999999999999x9"), Err(IntegerError::InvalidDigit));
    assert_eq!(parse_u64("18446744073709551615x"), Err(IntegerError::InvalidDigit));
    assert_eq!(parse_u64("1844674407370955161x"), Err(IntegerError::InvalidDigit));
    assert_eq!(parse_u64("x99999999999999999999"), Err(IntegerError::InvalidDigit));
    assert_eq!(parse_u64("99999999999999999999\u{e9}"), Err(IntegerError::PosOverflow));
}

#[test]
fn numbers_are_read_as_std_reads_them() {
    let texts = ["", "0", "1", "9", "10", "2", "+2", "-2", "+", "-", "+-2", "++2", "2+", "007",
                 "18446744073709551615", "18446744073709551616", "18446744073709551614",
                 "+18446744073709551615", "+18446744073709551616", "28446744073709551615",
                 "99999999999999999999", "99999999999999999999x", "9999999999999999999x9",
                 "18446744073709551615x", "1844674407370955161x", "184467440737095516150",
                 "000000000000000000000000000000000000001", "0000000000000000000000000000000x",
                 " 1", "1 ", "1\n", "\t1", "1_000", "1,000", "1.0", "1e3", "0x10", "0b1", "a", "/",
                 ":", "\u{0663}", "\u{ff11}", "1\u{ff11}", "\u{e9}", "99999999999999999999\u{e9}",
                 "Abolish the Burgeoisie!", "-1", "NaN", "१२३", "12३"];
    for text in &texts {
        assert_eq!(parse_u64(text), std_parse(text), "{:?}", text);
    }
}

#[test]
fn what_is_written_is_read_back() {
    let mut n: u64 = 1;
    for step in 0..2000u64 {
        assert_eq!(parse_u64(&u64_to_decimal(n)), Ok(n));
        n = n.wrapping_mul(6364136223846793005).wrapping_add(step);
    }
    assert_eq!(parse_u64(&u64_to_decimal(0)), Ok(0));
    assert_eq!(parse_u64(&u64_to_decimal(u64::MAX)), Ok(u64::MAX));
}
