//! Hexadecimal decoding.

use vstd::prelude::*;
use vstd::string::StringSliceAdditionalSpecFns;

verus! {

/// Why a hexadecimal string could not be decoded.
#[derive(Clone, Copy, Debug, PartialEq, Eq, Structural)]
pub enum HexError {
    /// The string has an odd number of bytes.
    OddLength,
    /// The string holds a byte that is no hexadecimal digit.
    InvalidDigit,
}

/// Whether `b` is an ASCII hexadecimal digit, in either case.
pub open spec fn is_hex_digit(b: u8) -> bool {
    (48 <= b <= 57) || (65 <= b <= 70) || (97 <= b <= 102)
}

/// The value of the hexadecimal digit `b`.
pub open spec fn hex_value(b: u8) -> int {
    if 48 <= b <= 57 {
        b - 48
    } else if 65 <= b <= 70 {
        b - 55
    } else {
        b - 87
    }
}

/// Whether every byte of `s` is a hexadecimal digit.
pub open spec fn all_hex(s: Seq<u8>) -> bool {
    forall|i: int| 0 <= i < s.len() ==> is_hex_digit(#[trigger] s[i])
}

/// The bytes that the digit pairs of `s` stand for, high digit first.
pub open spec fn hex_pairs(s: Seq<u8>) -> Seq<u8> {
    Seq::new(s.len() / 2, |i: int| (hex_value(s[2 * i]) * 16 + hex_value(s[2 * i + 1])) as u8)
}

/// The bytes that the hexadecimal text `s` encodes, if it is well formed.
pub open spec fn hex_decode(s: Seq<u8>) -> Option<Seq<u8>> {
    if s.len() % 2 == 0 && all_hex(s) {
        Some(hex_pairs(s))
    } else {
        None
    }
}

fn digit_value(b: u8) -> (r: Option<u8>)
    ensures
        is_hex_digit(b) ==> r == Some(hex_value(b) as u8),
        !is_hex_digit(b) ==> r is None,
{
    if 48 <= b && b <= 57 {
        Some(b - 48)
    } else if 65 <= b && b <= 70 {
        Some(b - 55)
    } else if 97 <= b && b <= 102 {
        Some(b - 87)
    } else {
        None
    }
}

/// Decodes a string of hexadecimal digit pairs into bytes.
pub fn decode_hex(s: &str) -> (r: Result<Vec<u8>, HexError>)
    ensures
        match r {
            Ok(v) => hex_decode(s.spec_bytes()) == Some(v@),
            Err(e) => hex_decode(s.spec_bytes()) is None && (e == HexError::OddLength
                <==> s.spec_bytes().len() % 2 == 1),
        },
{
    let bytes = s.as_bytes();
    let n = bytes.len();
    if n % 2 == 1 {
        return Err(HexError::OddLength);
    }
    let mut out: Vec<u8> = Vec::new();
    let mut i: usize = 0;
    while i < n
        invariant
            bytes@ == s.spec_bytes(),
            n == bytes@.len(),
            n % 2 == 0,
            i % 2 == 0,
            i <= n,
            out@.len() == i / 2,
            forall|k: int| 0 <= k < i ==> is_hex_digit(#[trigger] bytes@[k]),
            forall|j: int|
                0 <= j < i / 2 ==> #[trigger] out@[j] == (hex_value(bytes@[2 * j]) * 16
                    + hex_value(bytes@[2 * j + 1])) as u8,
        decreases n - i,
    {
        let hi = match digit_value(bytes[i]) {
            Some(v) => v,
            None => {
                assert(!all_hex(bytes@));
                return Err(HexError::InvalidDigit);
            },
        };
        let lo = match digit_value(bytes[i + 1]) {
            Some(v) => v,
            None => {
                assert(!all_hex(bytes@));
                return Err(HexError::InvalidDigit);
            },
        };
        out.push(hi * 16 + lo);
        i = i + 2;
    }
    assert(out@ =~= hex_pairs(bytes@));
    Ok(out)
}

} // verus!
