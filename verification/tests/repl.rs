use emu_attack::repl::{
    chars_of, determine_mode, parse_absolute, parse_hex_digits, parse_immediate, parse_zero_page,
    parse_zero_page_x,
};

#[test]
fn immediate_operands() {
    assert_eq!(parse_immediate("#$10"), Some(0x10));
    assert_eq!(parse_immediate("#$ff"), Some(0xFF));
    assert_eq!(parse_immediate("#$+7"), Some(0x07));
    assert_eq!(parse_immediate("#$"), None);
    assert_eq!(parse_immediate("#$100"), None);
    assert_eq!(parse_immediate("#$zz"), None);
}

#[test]
fn zero_page_operands() {
    assert_eq!(parse_zero_page("$44"), Some(0x44));
    assert_eq!(parse_zero_page("$A"), Some(0x0A));
    assert_eq!(parse_zero_page("$"), None);
    assert_eq!(parse_zero_page("$4G"), None);
}

#[test]
fn zero_page_x_operands() {
    assert_eq!(parse_zero_page_x("$44,x"), Some(0x44));
    assert_eq!(parse_zero_page_x("$4"), Some(0x04));
    assert_eq!(parse_zero_page_x("$,x"), None);
}

#[test]
fn absolute_operands() {
    // The first two digits are the high byte, and they are read last.
    assert_eq!(parse_absolute("$1234"), Some(0x3412));
    assert_eq!(parse_absolute("$12"), Some(0x12));
    assert_eq!(parse_absolute("$ffff"), Some(0xFFFF));
    assert_eq!(parse_absolute("$12345"), None);
    assert_eq!(parse_absolute("$"), None);
}

#[test]
fn hex_digits() {
    let digits = chars_of("1aF");
    assert_eq!(parse_hex_digits(digits.as_slice(), 0xFFFF), Some(0x1AF));
    assert_eq!(parse_hex_digits(digits.as_slice(), 0xFF), None);
    let digits = chars_of("+");
    assert_eq!(parse_hex_digits(digits.as_slice(), 0xFF), None);
    let digits = chars_of("-1");
    assert_eq!(parse_hex_digits(digits.as_slice(), 0xFF), None);
}

#[test]
fn modes_by_length() {
    assert_eq!(determine_mode("$44"), "zero page");
    assert_eq!(determine_mode("#$44"), "immediate");
    assert_eq!(determine_mode("$44,X"), "zero page x");
    assert_eq!(determine_mode("$4400"), "absolute");
    assert_eq!(determine_mode("($44,X)"), "indirect X");
    assert_eq!(determine_mode("($44),Y"), "indirect Y");
    assert_eq!(determine_mode("$4400,X"), "absolute X");
    assert_eq!(determine_mode("$4400,Y"), "absolute Y");
    assert_eq!(determine_mode("$44,x"), "absolute");
    assert_eq!(determine_mode("$4"), "Invalid value");
}
