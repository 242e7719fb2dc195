//! Data-integrity and frame-construction primitives for a Modbus RTU-style
//! serial protocol: bit parity, CRC-16 (Modbus polynomial), LRC with its
//! ASCII rendering, hexadecimal-digit conversion, and building/validation of
//! the fixed-shape request frame.

pub mod ascii_parser;
pub mod crc_lemmas;
pub mod error_detection;
pub mod modbus_rtu;
