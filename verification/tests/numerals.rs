use omnikey_rs::bytes::{read_be, read_le};
use omnikey_rs::text::{push_decimal, push_digits, push_flag, push_hex};

fn hex(n: u64, width: usize) -> String {
    let mut out = String::new();
    push_hex(&mut out, n, width);
    out
}

fn decimal(n: u64) -> String {
    let mut out = String::new();
    push_decimal(&mut out, n);
    out
}

#[test]
fn hex_pads_to_the_width() {
    assert_eq!(hex(0, 2), "00");
    assert_eq!(hex(7, 2), "07");
    assert_eq!(hex(0x80, 2), "80");
    assert_eq!(hex(0xff, 2), "ff");
    assert_eq!(hex(0x9000, 4), "9000");
    assert_eq!(hex(0x63, 4), "0063");
    assert_eq!(hex(0x0102030405, 10), "0102030405");
    assert_eq!(hex(0, 10), "0000000000");
}

#[test]
fn hex_is_lower_case() {
    assert_eq!(hex(0xABCDEF, 6), "abcdef");
    assert_eq!(hex(0x0123456789ABCDEF, 16), "0123456789abcdef");
}

#[test]
fn hex_grows_beyond_the_width() {
    assert_eq!(hex(0x12345678, 2), "12345678");
    assert_eq!(hex(u64::MAX, 10), "ffffffffffffffff");
    assert_eq!(hex(0x100, 2), "100");
}

#[test]
fn hex_width_zero_and_one_write_one_digit_at_least() {
    assert_eq!(hex(0, 0), "0");
    assert_eq!(hex(0, 1), "0");
    assert_eq!(hex(0x1f, 0), "1f");
}

#[test]
fn hex_agrees_with_the_standard_formatter() {
    for n in [0u64, 1, 15, 16, 255, 256, 0x9000, 0xFF_FFFF_FFFF, u64::MAX] {
        assert_eq!(hex(n, 2), format!("{:02x}", n));
        assert_eq!(hex(n, 4), format!("{:04x}", n));
        assert_eq!(hex(n, 10), format!("{:010x}", n));
    }
}

#[test]
fn decimal_has_no_padding() {
    assert_eq!(decimal(0), "0");
    assert_eq!(decimal(7), "7");
    assert_eq!(decimal(10), "10");
    assert_eq!(decimal(255), "255");
    assert_eq!(decimal(4328719365), "4328719365");
    assert_eq!(decimal(u64::MAX), "18446744073709551615");
}

#[test]
fn decimal_agrees_with_the_standard_formatter() {
    for n in [0u64, 9, 10, 99, 100, 12345, 1099511627775, u64::MAX] {
        assert_eq!(decimal(n), format!("{}", n));
    }
}

#[test]
fn digits_in_other_radixes() {
    let mut out = String::new();
    push_digits(&mut out, 5, 2, 8);
    assert_eq!(out, "00000101");
    let mut out = String::new();
    push_digits(&mut out, 0o777, 8, 1);
    assert_eq!(out, "777");
}

#[test]
fn digits_are_appended() {
    let mut out = String::from("id=");
    push_decimal(&mut out, 42);
    out.push(' ');
    push_hex(&mut out, 42, 4);
    assert_eq!(out, "id=42 002a");
}

#[test]
fn flags_are_words() {
    let mut out = String::new();
    push_flag(&mut out, true);
    out.push('/');
    push_flag(&mut out, false);
    assert_eq!(out, "true/false");
}

#[test]
fn read_be_takes_the_first_byte_as_most_significant() {
    let data: [u8; 6] = [0x01, 0x02, 0x03, 0x04, 0x05, 0x06];
    assert_eq!(read_be(&data, 0, 2), 0x0102);
    assert_eq!(read_be(&data, 1, 5), 0x0203040506);
    assert_eq!(read_be(&data, 3, 0), 0);
    assert_eq!(read_be(&data, 5, 1), 0x06);
}

#[test]
fn read_le_takes_the_first_byte_as_least_significant() {
    let data: [u8; 6] = [0x01, 0x02, 0x03, 0x04, 0x05, 0x06];
    assert_eq!(read_le(&data, 0, 2), 0x0201);
    assert_eq!(read_le(&data, 1, 4), 0x05040302);
    assert_eq!(read_le(&data, 6, 0), 0);
}

#[test]
fn read_eight_bytes() {
    let data: [u8; 8] = [0xFF; 8];
    assert_eq!(read_be(&data, 0, 8), u64::MAX);
    assert_eq!(read_le(&data, 0, 8), u64::MAX);
    let data: [u8; 8] = [0x80, 0, 0, 0, 0, 0, 0, 0x01];
    assert_eq!(read_be(&data, 0, 8), 0x8000_0000_0000_0001);
    assert_eq!(read_le(&data, 0, 8), 0x0100_0000_0000_0080);
}
