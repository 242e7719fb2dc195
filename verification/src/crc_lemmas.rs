//! Error-detection strength of the CRC-16: the shift step is linear over
//! XOR and never maps a nonzero difference to zero, so changing a single
//! byte of a sequence always changes its CRC-16.

use vstd::prelude::*;

use crate::error_detection::{crc16_add_byte, crc16_of, crc16_step, crc16_steps};

verus! {

/// One CRC shift step distributes over XOR.
proof fn lemma_crc16_step_linear(a: u16, b: u16)
    ensures
        crc16_step(a ^ b) == crc16_step(a) ^ crc16_step(b),
{
    assert(crc16_step(a ^ b) == crc16_step(a) ^ crc16_step(b)) by (bit_vector);
}

/// Any number of CRC shift steps distributes over XOR.
proof fn lemma_crc16_steps_linear(a: u16, b: u16, n: nat)
    ensures
        crc16_steps(a ^ b, n) == crc16_steps(a, n) ^ crc16_steps(b, n),
    decreases n,
{
    if n > 0 {
        lemma_crc16_steps_linear(a, b, (n - 1) as nat);
        lemma_crc16_step_linear(crc16_steps(a, (n - 1) as nat), crc16_steps(b, (n - 1) as nat));
    }
}

/// Shift steps compose: running `m` steps and then `n` more is running
/// `m + n` steps.
proof fn lemma_crc16_steps_add(crc: u16, m: nat, n: nat)
    ensures
        crc16_steps(crc16_steps(crc, m), n) == crc16_steps(crc, m + n),
    decreases n,
{
    if n > 0 {
        lemma_crc16_steps_add(crc, m, (n - 1) as nat);
    }
}

/// The CRC shift step maps no nonzero register to zero: the feedback
/// constant keeps the top bit of the difference alive.
proof fn lemma_crc16_step_nonzero(d: u16)
    requires
        d != 0,
    ensures
        crc16_step(d) != 0,
{
    assert(d != 0 ==> crc16_step(d) != 0) by (bit_vector);
}

/// No number of shift steps maps a nonzero register to zero.
proof fn lemma_crc16_steps_nonzero(d: u16, n: nat)
    requires
        d != 0,
    ensures
        crc16_steps(d, n) != 0,
    decreases n,
{
    if n > 0 {
        lemma_crc16_steps_nonzero(d, (n - 1) as nat);
        lemma_crc16_step_nonzero(crc16_steps(d, (n - 1) as nat));
    }
}

/// XORing `e` into the byte at position `i` XORs a fixed syndrome into the
/// CRC-16: the difference `e`, widened, run through one shift-step round
/// for the changed byte and for each byte after it.
proof fn lemma_crc16_flip_syndrome(s: Seq<u8>, i: int, e: u8)
    requires
        0 <= i < s.len(),
    ensures
        crc16_of(s.update(i, (s[i] ^ e))) == crc16_of(s) ^ crc16_steps(
            e as u16,
            (8 * (s.len() - i)) as nat,
        ),
    decreases s.len(),
{
    let s2 = s.update(i, (s[i] ^ e));
    let b = s.last();
    let c = crc16_of(s.drop_last());
    if i == s.len() - 1 {
        assert(s2.drop_last() =~= s.drop_last());
        assert(((b ^ e) as u16) == (b as u16) ^ (e as u16)) by (bit_vector);
        assert((c ^ ((b as u16) ^ (e as u16))) == (c ^ (b as u16)) ^ (e as u16)) by (bit_vector);
        lemma_crc16_steps_linear(c ^ (b as u16), e as u16, 8);
    } else {
        lemma_crc16_flip_syndrome(s.drop_last(), i, e);
        assert(s2.drop_last() =~= s.drop_last().update(i, (s[i] ^ e)));
        assert(s2.last() == b);
        let d = crc16_steps(e as u16, (8 * (s.len() - 1 - i)) as nat);
        assert(((c ^ d) ^ (b as u16)) == (c ^ (b as u16)) ^ d) by (bit_vector);
        lemma_crc16_steps_linear(c ^ (b as u16), d, 8);
        lemma_crc16_steps_add(e as u16, (8 * (s.len() - 1 - i)) as nat, 8);
    }
}

/// Changing a single byte of a sequence always changes its CRC-16.
pub proof fn lemma_crc16_byte_change(s: Seq<u8>, i: int, e: u8)
    requires
        0 <= i < s.len(),
        e != 0,
    ensures
        crc16_of(s.update(i, (s[i] ^ e))) != crc16_of(s),
{
    lemma_crc16_flip_syndrome(s, i, e);
    assert(e != 0 ==> (e as u16) != 0) by (bit_vector);
    lemma_crc16_steps_nonzero(e as u16, (8 * (s.len() - i)) as nat);
    let d = crc16_steps(e as u16, (8 * (s.len() - i)) as nat);
    let x = crc16_of(s);
    assert(d != 0 ==> (x ^ d) != x) by (bit_vector);
}

} // verus!
