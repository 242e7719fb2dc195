use vstd::prelude::*;
use vstd::string::StringExecFns;

verus! {

/// Why a byte could not be read as a hexadecimal ASCII digit.
#[derive(Clone, Copy, Debug, PartialEq, Eq, Structural)]
pub enum AsciiError {
    /// The byte has its high bit set, so it is no 7-bit ASCII character.
    NotAscii,
    /// The byte is valid ASCII but lies outside `0`..`9` and `A`..`F`.
    OutOfHexRange,
}

/// True when `value` is the ASCII code of a decimal digit or of an
/// uppercase hexadecimal letter `A`..`F`.
pub open spec fn is_hex_digit_byte(value: u8) -> bool {
    (0x30 <= value && value <= 0x39) || (0x41 <= value && value <= 0x46)
}

/// Reinterprets a byte as the hexadecimal ASCII digit it encodes.
///
/// Succeeds exactly on the codes of `0`..`9` and `A`..`F`; a byte outside
/// 7-bit ASCII is reported as `NotAscii`, any other ASCII byte as
/// `OutOfHexRange`.
pub fn bin_to_ascii(value: u8) -> (r: Result<char, AsciiError>)
    ensures
        is_hex_digit_byte(value) ==> r == Ok::<char, AsciiError>(value as char),
        value > 0x7F ==> r == Err::<char, AsciiError>(AsciiError::NotAscii),
        value <= 0x7F && !is_hex_digit_byte(value) ==> r == Err::<char, AsciiError>(
            AsciiError::OutOfHexRange,
        ),
{
    if value > 0x7F {
        Err(AsciiError::NotAscii)
    } else if (0x30 <= value && value <= 0x39) || (0x41 <= value && value <= 0x46) {
        Ok(value as char)
    } else {
        Err(AsciiError::OutOfHexRange)
    }
}

/// The uppercase hexadecimal digit for a nibble value.
pub open spec fn hex_char(n: u8) -> char
    recommends
        n < 16,
{
    if n == 0 {
        '0'
    } else if n == 1 {
        '1'
    } else if n == 2 {
        '2'
    } else if n == 3 {
        '3'
    } else if n == 4 {
        '4'
    } else if n == 5 {
        '5'
    } else if n == 6 {
        '6'
    } else if n == 7 {
        '7'
    } else if n == 8 {
        '8'
    } else if n == 9 {
        '9'
    } else if n == 10 {
        'A'
    } else if n == 11 {
        'B'
    } else if n == 12 {
        'C'
    } else if n == 13 {
        'D'
    } else if n == 14 {
        'E'
    } else {
        'F'
    }
}

/// The two-character uppercase hexadecimal notation of a byte, zero-padded.
pub open spec fn hex_byte(b: u8) -> Seq<char> {
    seq![hex_char(b / 16), hex_char(b % 16)]
}

/// The uppercase hexadecimal digit of a nibble as a one-character string.
fn hex_digit_str(n: u8) -> (r: &'static str)
    requires
        n < 16,
    ensures
        r@ == seq![hex_char(n)],
{
    if n == 0 {
        proof {
            reveal_strlit("0");
            assert("0"@ =~= seq![hex_char(0)]);
        }
        "0"
    } else if n == 1 {
        proof {
            reveal_strlit("1");
            assert("1"@ =~= seq![hex_char(1)]);
        }
        "1"
    } else if n == 2 {
        proof {
            reveal_strlit("2");
            assert("2"@ =~= seq![hex_char(2)]);
        }
        "2"
    } else if n == 3 {
        proof {
            reveal_strlit("3");
            assert("3"@ =~= seq![hex_char(3)]);
        }
        "3"
    } else if n == 4 {
        proof {
            reveal_strlit("4");
            assert("4"@ =~= seq![hex_char(4)]);
        }
        "4"
    } else if n == 5 {
        proof {
            reveal_strlit("5");
            assert("5"@ =~= seq![hex_char(5)]);
        }
        "5"
    } else if n == 6 {
        proof {
            reveal_strlit("6");
            assert("6"@ =~= seq![hex_char(6)]);
        }
        "6"
    } else if n == 7 {
        proof {
            reveal_strlit("7");
            assert("7"@ =~= seq![hex_char(7)]);
        }
        "7"
    } else if n == 8 {
        proof {
            reveal_strlit("8");
            assert("8"@ =~= seq![hex_char(8)]);
        }
        "8"
    } else if n == 9 {
        proof {
            reveal_strlit("9");
            assert("9"@ =~= seq![hex_char(9)]);
        }
        "9"
    } else if n == 10 {
        proof {
            reveal_strlit("A");
            assert("A"@ =~= seq![hex_char(10)]);
        }
        "A"
    } else if n == 11 {
        proof {
            reveal_strlit("B");
            assert("B"@ =~= seq![hex_char(11)]);
        }
        "B"
    } else if n == 12 {
        proof {
            reveal_strlit("C");
            assert("C"@ =~= seq![hex_char(12)]);
        }
        "C"
    } else if n == 13 {
        proof {
            reveal_strlit("D");
            assert("D"@ =~= seq![hex_char(13)]);
        }
        "D"
    } else if n == 14 {
        proof {
            reveal_strlit("E");
            assert("E"@ =~= seq![hex_char(14)]);
        }
        "E"
    } else {
        proof {
            reveal_strlit("F");
            assert("F"@ =~= seq![hex_char(15)]);
        }
        "F"
    }
}

/// Appends the two uppercase hexadecimal digits of `b` to `out`.
pub fn push_hex_byte(out: &mut String, b: u8)
    ensures
        final(out)@ == old(out)@ + hex_byte(b),
{
    proof {
        assert(b >> 4 == b / 16 && (b & 0x0F) == b % 16 && b / 16 < 16) by (bit_vector);
    }
    out.append(hex_digit_str(b >> 4));
    out.append(hex_digit_str(b & 0x0F));
    proof {
        assert(out@ =~= old(out)@ + hex_byte(b));
    }
}

} // verus!
