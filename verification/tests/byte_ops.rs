use wasmboi::util::byte_ops::{
    extract_lhs, extract_rhs, hi_lo_combine, left_shift, split_hi, split_lo,
};
use wasmboi::util::text::{format_binary, format_binary_of_four, format_decimal, format_hex};

#[test]
fn test_left_shift() {
    assert_eq!(left_shift(0xF), 0xF00)
}

#[test]
fn test_hi_lo_combine() {
    let hi: u8 = 0xA;
    let lo: u8 = 0xCB;

    assert_eq!(hi_lo_combine(hi, lo), 0xACB)
}

#[test]
fn test_extract_lhs() {
    assert_eq!(extract_lhs(0b101010), 0b101)
}

#[test]
fn test_extract_rhs() {
    assert_eq!(extract_rhs(0b111011), 0b011)
}

#[test]
fn word_splits_into_its_bytes() {
    assert_eq!(split_hi(0xABCD), 0xAB);
    assert_eq!(split_lo(0xABCD), 0xCD);
    assert_eq!(hi_lo_combine(split_hi(0xFF01), split_lo(0xFF01)), 0xFF01);
    assert_eq!(left_shift(0xFF), 0xFF00);
    assert_eq!(left_shift(0), 0);
}

#[test]
fn opcode_fields_ignore_the_top_bits() {
    assert_eq!(extract_lhs(0xFF), 7);
    assert_eq!(extract_rhs(0xFF), 7);
    assert_eq!(extract_lhs(0xC0), 0);
    assert_eq!(extract_rhs(0xF8), 0);
}

#[test]
fn numbers_as_text() {
    assert_eq!(format_hex(0), "0");
    assert_eq!(format_hex(10), "A");
    assert_eq!(format_hex(0xDA), "DA");
    assert_eq!(format_hex(0x1AB), "1AB");
    assert_eq!(format_hex(0xFFFF), "FFFF");
    assert_eq!(format_decimal(0), "0");
    assert_eq!(format_decimal(9), "9");
    assert_eq!(format_decimal(10), "10");
    assert_eq!(format_decimal(4000), "4000");
    assert_eq!(format_binary(0), "0");
    assert_eq!(format_binary(2), "10");
    assert_eq!(format_binary(0xB0), "10110000");
    assert_eq!(format_binary_of_four(0), "0000");
    assert_eq!(format_binary_of_four(3), "0011");
    assert_eq!(format_binary_of_four(7), "0111");
    assert_eq!(format_binary_of_four(16), "10000");
}
