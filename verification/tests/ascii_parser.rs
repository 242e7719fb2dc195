use modbus_core::ascii_parser::{bin_to_ascii, AsciiError};

#[test]
fn is_valid() {
    for b in 0x30..=0x39 {
        assert_eq!(bin_to_ascii((b & 0x0F) + b'0').unwrap(), b as char);

        let shifted_value = ((b >> 4) & 0x0F) + b'0';
        assert_eq!(bin_to_ascii(shifted_value).unwrap(), shifted_value as char);
    }
}

#[test]
fn is_invalid() {
    for b in 0x3a..=0x40 {
        assert!(bin_to_ascii(b).is_err());
    }
}

#[test]
fn uppercase_letters_are_valid() {
    for b in 0x41..=0x46u8 {
        assert_eq!(bin_to_ascii(b).unwrap(), b as char);
    }
}

#[test]
fn high_bit_set_is_not_ascii() {
    assert_eq!(bin_to_ascii(0x80), Err(AsciiError::NotAscii));
    assert_eq!(bin_to_ascii(0xFF), Err(AsciiError::NotAscii));
}

#[test]
fn ascii_outside_hex_range_is_rejected() {
    assert_eq!(bin_to_ascii(0x2F), Err(AsciiError::OutOfHexRange));
    assert_eq!(bin_to_ascii(0x47), Err(AsciiError::OutOfHexRange));
    // Lowercase hex letters are intentionally outside the recognized range.
    assert_eq!(bin_to_ascii(b'a'), Err(AsciiError::OutOfHexRange));
    assert_eq!(bin_to_ascii(0x00), Err(AsciiError::OutOfHexRange));
    assert_eq!(bin_to_ascii(0x7F), Err(AsciiError::OutOfHexRange));
}
