use modbus_core::error_detection::calc_crc16;
use modbus_core::modbus_rtu::RTUSendMessage;

#[test]
fn build_message_worked() {
    (1..=10).collect::<Vec<u8>>().iter().for_each(|&slave| {
        let query = [slave, 0x03, 0x00, 0x6B, 0x00, 0x03];
        let (low, high) = calc_crc16(&query);

        let rtu = RTUSendMessage::new(slave, 0x03, 0x00, 0x6B, 0x00, 0x03);
        let message = rtu.build_send_message();

        assert_eq!(&message[0..6], query);
        assert_eq!(message[6], low);
        assert_eq!(message[7], high);
    });
}

#[test]
fn dump_message_worked() {
    (1..=10).collect::<Vec<u8>>().iter().for_each(|&slave| {
        let mut query = [slave, 0x03, 0x00, 0x6B, 0x00, 0x03].to_vec();
        let (low, high) = calc_crc16(&query);

        query.push(low);
        query.push(high);

        let expected: String = query
            .iter()
            .map(|byte| format!("0x{:02X}", byte))
            .collect::<Vec<_>>()
            .join(", ");

        let rtu = RTUSendMessage::new(slave, 0x03, 0x00, 0x6B, 0x00, 0x03);
        let dump_message = rtu.dump_message(&query);

        assert_eq!(dump_message, expected);
    });
}

#[test]
fn recieve_message_worked() {
    let mut message = [0x06, 0x03, 0x06, 0x03, 0xE8, 0x01, 0xF4, 0x00, 0x0A].to_vec();
    let (low, high) = calc_crc16(&message);
    message.push(low);
    message.push(high);

    let rtu = RTUSendMessage::new(0x01, 0x03, 0x00, 0x6B, 0x00, 0x03);
    let is_valid = rtu.receive_message(&message, message.len());
    assert_eq!(is_valid, true);
}

#[test]
fn round_trip_validates() {
    let frames = [
        [0x00, 0x00, 0x00, 0x00, 0x00, 0x00],
        [0x01, 0x04, 0x00, 0x00, 0x00, 0x01],
        [0xFF, 0xFF, 0xFF, 0xFF, 0xFF, 0xFF],
        [0x11, 0x03, 0x00, 0x6B, 0x00, 0x03],
    ];
    for f in frames {
        let rtu = RTUSendMessage::new(f[0], f[1], f[2], f[3], f[4], f[5]);
        let message = rtu.build_send_message();
        assert_eq!(message.len(), 8);
        assert!(rtu.receive_message(&message, 8));
    }
}

#[test]
fn single_bit_flip_is_detected() {
    let rtu = RTUSendMessage::new(0x11, 0x03, 0x00, 0x6B, 0x00, 0x03);
    let message = rtu.build_send_message();
    for i in 0..8 {
        for j in 0..8 {
            let mut corrupted = message.clone();
            corrupted[i] ^= 1 << j;
            assert!(!rtu.receive_message(&corrupted, 8));
        }
    }
}

#[test]
fn size_mismatch_is_rejected() {
    let rtu = RTUSendMessage::new(0x11, 0x03, 0x00, 0x6B, 0x00, 0x03);
    let message = rtu.build_send_message();
    assert!(!rtu.receive_message(&message, message.len() + 1));
    assert!(!rtu.receive_message(&message, message.len() - 1));
}

#[test]
fn dump_message_formats_bytes() {
    let rtu = RTUSendMessage::new(0x01, 0x03, 0x00, 0x6B, 0x00, 0x03);
    assert_eq!(rtu.dump_message(&[]), "");
    assert_eq!(rtu.dump_message(&[0x00]), "0x00");
    assert_eq!(rtu.dump_message(&[0x0A, 0xAB, 0xFF]), "0x0A, 0xAB, 0xFF");
}
