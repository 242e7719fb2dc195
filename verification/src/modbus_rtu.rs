use vstd::prelude::*;
use vstd::slice::slice_subrange;
use vstd::string::StringExecFns;

use crate::ascii_parser::{hex_byte, push_hex_byte};
use crate::crc_lemmas::lemma_crc16_byte_change;
use crate::error_detection::{calc_crc16, crc16_high, crc16_low, crc16_of};

verus! {

/// Modbus RTU request frame: the six fixed header/payload bytes.
///
/// Any byte value is accepted for each field; whether a combination is
/// meaningful is a transport-layer concern, not this type's.
#[derive(Debug)]
pub struct RTUSendMessage {
    /// Slave address.
    slave_address: u8,
    /// Function code.
    function_code: u8,
    /// Start address, high byte.
    upper_start_address: u8,
    /// Start address, low byte.
    lower_start_address: u8,
    /// Number of registers, high byte.
    upper_number_of_registers: u8,
    /// Number of registers, low byte.
    lower_number_of_registers: u8,
}

/// The hex-dump notation of a byte sequence: each byte as `0xHH` in
/// uppercase, joined by `", "`, with no trailing separator.
pub open spec fn dump_of(s: Seq<u8>) -> Seq<char>
    decreases s.len(),
{
    if s.len() == 0 {
        Seq::empty()
    } else if s.len() == 1 {
        seq!['0', 'x'] + hex_byte(s[0])
    } else {
        dump_of(s.drop_last()) + seq![',', ' '] + seq!['0', 'x'] + hex_byte(s.last())
    }
}

/// A received byte sequence is a valid frame for an expected size when it
/// has exactly that length, is long enough to carry a checksum, and its
/// trailing two bytes hold the CRC-16 of the rest, low byte first.
pub open spec fn frame_valid(message: Seq<u8>, size: int) -> bool {
    &&& message.len() == size
    &&& message.len() >= 2
    &&& message[message.len() - 2] == crc16_low(message.take(message.len() - 2))
    &&& message[message.len() - 1] == crc16_high(message.take(message.len() - 2))
}

impl RTUSendMessage {
    /// The six payload bytes of the frame, in wire order.
    pub closed spec fn payload(self) -> Seq<u8> {
        seq![
            self.slave_address,
            self.function_code,
            self.upper_start_address,
            self.lower_start_address,
            self.upper_number_of_registers,
            self.lower_number_of_registers,
        ]
    }

    /// The full transmit frame: the payload followed by its CRC-16,
    /// low byte first.
    pub open spec fn send_message(self) -> Seq<u8> {
        self.payload() + seq![crc16_low(self.payload()), crc16_high(self.payload())]
    }

    /// Builds a frame from its six header bytes, in wire order.
    pub fn new(
        slave_address: u8,
        function_code: u8,
        upper_start_address: u8,
        lower_start_address: u8,
        upper_number_of_registers: u8,
        lower_number_of_registers: u8,
    ) -> (r: Self)
        ensures
            r.payload() == seq![
                slave_address,
                function_code,
                upper_start_address,
                lower_start_address,
                upper_number_of_registers,
                lower_number_of_registers,
            ],
    {
        let r = Self {
            slave_address,
            function_code,
            upper_start_address,
            lower_start_address,
            upper_number_of_registers,
            lower_number_of_registers,
        };
        proof {
            assert(r.payload() =~= seq![
                slave_address,
                function_code,
                upper_start_address,
                lower_start_address,
                upper_number_of_registers,
                lower_number_of_registers,
            ]);
        }
        r
    }

    /// Builds the transmit byte sequence: the six payload bytes with the
    /// CRC-16 over them appended, low byte first. Always eight bytes, and
    /// the last two always equal the CRC-16 of the first six.
    pub fn build_send_message(&self) -> (r: Vec<u8>)
        ensures
            r@ == self.send_message(),
    {
        let mut message: Vec<u8> = vec![
            self.slave_address,
            self.function_code,
            self.upper_start_address,
            self.lower_start_address,
            self.upper_number_of_registers,
            self.lower_number_of_registers,
        ];
        proof {
            assert(message@ =~= self.payload());
        }

        let (low, high) = calc_crc16(message.as_slice());
        message.push(low);
        message.push(high);

        proof {
            assert(message@ =~= self.send_message());
        }
        message
    }

    /// Renders any byte sequence as a human-readable hex dump:
    /// `0xHH, 0xHH, ...` in uppercase. The frame's own fields play no part.
    pub fn dump_message(&self, message: &[u8]) -> (r: String)
        ensures
            r@ == dump_of(message@),
    {
        let mut out = String::new();
        let mut i: usize = 0;

        proof {
            assert(message@.take(0) =~= Seq::<u8>::empty());
        }
        while i < message.len()
            invariant
                i <= message@.len(),
                out@ == dump_of(message@.take(i as int)),
            decreases message@.len() - i,
        {
            if i > 0 {
                out.append(", ");
            }
            out.append("0x");
            push_hex_byte(&mut out, message[i]);
            proof {
                reveal_strlit(", ");
                reveal_strlit("0x");
                assert(message@.take(i as int + 1).drop_last() =~= message@.take(i as int));
                assert(out@ =~= dump_of(message@.take(i as int + 1)));
            }
            i += 1;
        }
        proof {
            assert(message@.take(message@.len() as int) =~= message@);
        }
        out
    }

    /// Validates a received byte sequence: its length must equal `size`,
    /// and its trailing two bytes must equal the CRC-16 recomputed over
    /// all bytes before them, low byte first.
    ///
    /// A sequence shorter than two bytes cannot carry its checksum, so a
    /// matching `size` below two is left out of the domain.
    pub fn receive_message(&self, message: &[u8], size: usize) -> (r: bool)
        requires
            message@.len() == size ==> message@.len() >= 2,
        ensures
            r == frame_valid(message@, size as int),
    {
        if message.len() != size {
            return false;
        }

        let message_len = message.len() - 2;
        let buffers = slice_subrange(message, 0, message_len);

        let (low, high) = calc_crc16(buffers);
        let receive_crc_low = message[message.len() - 2];
        let receive_crc_high = message[message.len() - 1];

        if low != receive_crc_low || high != receive_crc_high {
            return false;
        }

        true
    }
}

/// A frame built from any six header bytes always validates at its full
/// length of eight bytes.
pub proof fn lemma_round_trip(f: RTUSendMessage)
    ensures
        frame_valid(f.send_message(), 8),
{
    assert(f.send_message().take(6) =~= f.payload());
}

/// Flipping any single bit of a built frame — in its six payload bytes or
/// in either checksum byte — makes validation at size eight fail: the
/// CRC-16 detects every single-bit error.
pub proof fn lemma_single_bit_flip_detected(f: RTUSendMessage, i: int, j: u8)
    requires
        0 <= i < 8,
        j < 8,
    ensures
        !frame_valid(f.send_message().update(i, (f.send_message()[i] ^ (1u8 << j))), 8),
{
    let m = f.send_message();
    let e = 1u8 << j;
    let m2 = m.update(i, (m[i] ^ e));
    assert(j < 8 ==> (1u8 << j) != 0) by (bit_vector);
    assert(m.take(6) =~= f.payload());
    if i < 6 {
        assert(m2.take(6) =~= m.take(6).update(i, (m.take(6)[i] ^ e)));
        lemma_crc16_byte_change(m.take(6), i, e);
        let x = crc16_of(m2.take(6));
        let y = crc16_of(m.take(6));
        assert(x != y ==> ((x & 0xFF) as u8 != (y & 0xFF) as u8) || (((x >> 8) & 0xFF) as u8 != ((
        y >> 8) & 0xFF) as u8)) by (bit_vector);
        assert(m2[6] == m[6] && m2[7] == m[7]);
    } else {
        assert(m2.take(6) =~= m.take(6));
        let b = m[i];
        assert(e != 0 ==> (b ^ e) != b) by (bit_vector);
    }
}

/// A message never validates against an expected size other than its own
/// length; in particular, one byte more than its length always fails.
pub proof fn lemma_size_mismatch(message: Seq<u8>)
    ensures
        !frame_valid(message, message.len() as int + 1),
{
}

} // verus!
