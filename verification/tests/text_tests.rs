use pasori::text::{format_version, hex_digit, to_hex_string};

#[test]
fn hex_digits_render_lowercase() {
    assert_eq!(hex_digit(0), '0');
    assert_eq!(hex_digit(9), '9');
    assert_eq!(hex_digit(10), 'a');
    assert_eq!(hex_digit(15), 'f');
}

#[test]
fn bytes_render_as_two_digits_each() {
    assert_eq!(to_hex_string(&[0x00]), "00");
    assert_eq!(to_hex_string(&[0xde, 0xad, 0xbe, 0xef]), "deadbeef");
    assert_eq!(to_hex_string(&[0x01, 0x02, 0x03, 0x04, 0x05, 0x06, 0x07, 0x08]), "0102030405060708");
}

#[test]
fn version_minor_is_zero_padded() {
    assert_eq!(format_version(0x00, 0x00), "0.00");
    assert_eq!(format_version(0x01, 0x2d), "1.2d");
    assert_eq!(format_version(0x1a, 0x00), "1a.00");
    assert_eq!(format_version(0xff, 0xff), "ff.ff");
}
