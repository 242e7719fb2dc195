use modbus_core::error_detection::{calc_crc16, calc_lrc_ascii, calc_parity8};

#[test]
fn calc_parity8_worked() {
    // Parity of the count of set bits for 0..=10.
    let parity = [0, 1, 1, 0, 1, 0, 0, 1, 1, 0, 0];
    for i in 0..=10u8 {
        assert_eq!(calc_parity8(i), parity[i as usize]);
    }
}

#[test]
fn calc_parity8_full_bytes() {
    assert_eq!(calc_parity8(0x00), 0);
    assert_eq!(calc_parity8(0xFF), 0);
    assert_eq!(calc_parity8(0xFE), 1);
    assert_eq!(calc_parity8(0x80), 1);
}

#[test]
fn calc_crc16_worked() {
    let data = [0x01, 0x04, 0x00, 0x00, 0x00, 0x01];
    let (low, high) = calc_crc16(&data);
    assert_eq!(low, 0x31);
    assert_eq!(high, 0xCA);
}

#[test]
fn calc_crc16_empty() {
    let (low, high) = calc_crc16(&[]);
    assert_eq!(low, 0xFF);
    assert_eq!(high, 0xFF);
}

#[test]
fn calc_lrc_ascii_worked() {
    let data = [0x01, 0x03, 0x00, 0x80, 0x00, 0x01];
    let (lrc, lrc_ascii) = calc_lrc_ascii(&data);
    assert_eq!(lrc, 0x7B);
    assert_eq!(lrc_ascii, "7B");
}

#[test]
fn calc_lrc_ascii_empty() {
    let (lrc, lrc_ascii) = calc_lrc_ascii(&[]);
    assert_eq!(lrc, 0x00);
    assert_eq!(lrc_ascii, "00");
}

#[test]
fn calc_lrc_ascii_wraps_modulo_256() {
    // 0x80 + 0x90 wraps to 0x10; its two's complement is 0xF0.
    let (lrc, lrc_ascii) = calc_lrc_ascii(&[0x80, 0x90]);
    assert_eq!(lrc, 0xF0);
    assert_eq!(lrc_ascii, "F0");
}
