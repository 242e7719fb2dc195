use vstd::arithmetic::power2::{lemma2_to64, lemma_pow2_unfold, pow2};
use vstd::prelude::*;

use crate::ascii_parser::{hex_byte, push_hex_byte};

verus! {

/// The number of 1-bits in the binary notation of `n`.
pub open spec fn bit_count(n: nat) -> nat
    decreases n,
{
    if n == 0 {
        0
    } else {
        n % 2 + bit_count(n / 2)
    }
}

/// A number below `pow2(k)` has at most `k` set bits.
proof fn lemma_bit_count_bound(n: nat, k: nat)
    requires
        n < pow2(k),
    ensures
        bit_count(n) <= k,
    decreases k,
{
    if k == 0 {
        lemma2_to64();
    } else {
        lemma_pow2_unfold(k);
        lemma_bit_count_bound(n / 2, (k - 1) as nat);
    }
}

/// Parity of a byte: 0 when its count of set bits is even, 1 when odd.
pub fn calc_parity8(data: u8) -> (r: u8)
    ensures
        r as nat == bit_count(data as nat) % 2,
{
    let mut count: u8 = 0;
    let mut current: u8 = data;

    proof {
        lemma2_to64();
        lemma_bit_count_bound(data as nat, 8);
    }
    while current > 0
        invariant
            count as nat + bit_count(current as nat) == bit_count(data as nat),
            bit_count(data as nat) <= 8,
        decreases current,
    {
        proof {
            assert(current & 0x01 == current % 2) by (bit_vector);
            assert(current >> 1 == current / 2) by (bit_vector);
        }
        count += current & 0x01;
        current >>= 1;
    }

    if count % 2 == 0 {
        0
    } else {
        1
    }
}

/// The parity relation stated over a plain integer: for any non-negative
/// integer below 256, reducing it modulo 256 keeps every set bit, so the
/// parity bit of the byte `n % 256` is `n`'s own count of set bits modulo 2.
pub proof fn lemma_parity8_bit_count(n: nat)
    requires
        n < 256,
    ensures
        bit_count(n % 256) == bit_count(n),
        bit_count(n % 256) % 2 == bit_count(n) % 2,
{
}

/// One shift step of the reflected CRC-16: shift right, and fold in the
/// Modbus feedback constant 0xA001 when the bit shifted out was set.
pub open spec fn crc16_step(crc: u16) -> u16 {
    if crc & 0x0001 == 1 {
        (crc >> 1) ^ 0xA001
    } else {
        crc >> 1
    }
}

/// `n` shift steps applied to `crc`.
pub open spec fn crc16_steps(crc: u16, n: nat) -> u16
    decreases n,
{
    if n == 0 {
        crc
    } else {
        crc16_step(crc16_steps(crc, (n - 1) as nat))
    }
}

/// Folds one input byte into the CRC register: XOR it into the low byte,
/// then run the eight shift steps.
pub open spec fn crc16_add_byte(crc: u16, byte: u8) -> u16 {
    crc16_steps(crc ^ (byte as u16), 8)
}

/// The CRC-16 register after processing `s`, starting from 0xFFFF.
pub open spec fn crc16_of(s: Seq<u8>) -> u16
    decreases s.len(),
{
    if s.len() == 0 {
        0xFFFF
    } else {
        crc16_add_byte(crc16_of(s.drop_last()), s.last())
    }
}

/// The low byte of the CRC-16 of `s`: transmitted first.
pub open spec fn crc16_low(s: Seq<u8>) -> u8 {
    (crc16_of(s) & 0xFF) as u8
}

/// The high byte of the CRC-16 of `s`: transmitted second.
pub open spec fn crc16_high(s: Seq<u8>) -> u8 {
    ((crc16_of(s) >> 8) & 0xFF) as u8
}

/// Computes the Modbus CRC-16 of `data` and returns it split as
/// (low byte, high byte), the order in which it is sent on the wire.
pub fn calc_crc16(data: &[u8]) -> (r: (u8, u8))
    ensures
        r.0 == crc16_low(data@),
        r.1 == crc16_high(data@),
{
    let mut crc: u16 = 0xFFFF;
    let mut i: usize = 0;

    proof {
        assert(data@.take(0) =~= Seq::<u8>::empty());
    }
    while i < data.len()
        invariant
            i <= data@.len(),
            crc == crc16_of(data@.take(i as int)),
        decreases data@.len() - i,
    {
        let byte = data[i];
        crc = crc ^ (byte as u16);
        let ghost start = crc;
        let mut j: usize = 0;
        while j < 8
            invariant
                j <= 8,
                crc == crc16_steps(start, j as nat),
            decreases 8 - j,
        {
            if crc & 0x0001 == 1 {
                crc = (crc >> 1) ^ 0xA001;
            } else {
                crc = crc >> 1;
            }
            j += 1;
        }
        proof {
            assert(data@.take(i as int + 1).drop_last() =~= data@.take(i as int));
        }
        i += 1;
    }
    proof {
        assert(data@.take(data@.len() as int) =~= data@);
        assert(crc & 0xFF < 256) by (bit_vector);
        assert((crc >> 8) & 0xFF < 256) by (bit_vector);
    }
    let low = (crc & 0xFF) as u8;
    let high = ((crc >> 8) & 0xFF) as u8;
    (low, high)
}

/// The modulo-256 sum of a byte sequence.
pub open spec fn sum8(s: Seq<u8>) -> u8
    decreases s.len(),
{
    if s.len() == 0 {
        0
    } else {
        ((sum8(s.drop_last()) as int + s.last() as int) % 256) as u8
    }
}

/// The LRC of a byte sequence: the two's complement of its modulo-256 sum.
pub open spec fn lrc_of(s: Seq<u8>) -> u8 {
    ((256 - sum8(s) as int) % 256) as u8
}

/// Computes the LRC of `data` and returns it both as a raw byte and in its
/// two-character uppercase hexadecimal notation.
pub fn calc_lrc_ascii(data: &[u8]) -> (r: (u8, String))
    ensures
        r.0 == lrc_of(data@),
        r.1@ == hex_byte(lrc_of(data@)),
{
    let mut sum: u8 = 0;
    let mut i: usize = 0;

    proof {
        assert(data@.take(0) =~= Seq::<u8>::empty());
    }
    while i < data.len()
        invariant
            i <= data@.len(),
            sum == sum8(data@.take(i as int)),
        decreases data@.len() - i,
    {
        proof {
            assert(data@.take(i as int + 1).drop_last() =~= data@.take(i as int));
        }
        sum = sum.wrapping_add(data[i]);
        i += 1;
    }
    proof {
        assert(data@.take(data@.len() as int) =~= data@);
    }

    let lrc = (!sum).wrapping_add(1);
    proof {
        assert(!sum == 255 - sum) by (bit_vector);
    }
    let mut lrc_ascii = String::new();
    push_hex_byte(&mut lrc_ascii, lrc);

    (lrc, lrc_ascii)
}

} // verus!
