//! Hexadecimal encoding and decoding through the `hex` crate.
use vstd::prelude::*;
use crate::text::hex_lower;
use vstd::string::StringSliceAdditionalSpecFns;

verus! {

/// Why a string is not a hexadecimal numeral.
#[derive(Debug, Clone, Copy, PartialEq, Eq, Structural)]
pub enum HexError {
    /// A byte that is no hex digit, as a character, and its position in the input
    InvalidHexCharacter { c: char, index: usize },
    /// The input has an odd number of bytes
    OddLength,
    /// The input does not fit the expected length
    InvalidStringLength,
}

/// The value of the hexadecimal digit `b` (either case), if it is one.
pub open spec fn hex_value(b: u8) -> Option<u8> {
    if 48 <= b <= 57 {
        Some((b - 48) as u8)
    } else if 97 <= b <= 102 {
        Some((b - 87) as u8)
    } else if 65 <= b <= 70 {
        Some((b - 55) as u8)
    } else {
        None
    }
}

/// The bytes written by the hexadecimal numeral `s` (even length, all digits valid).
pub open spec fn hex_bytes(s: Seq<u8>) -> Seq<u8> {
    Seq::new(s.len() / 2, |i: int|
        (hex_value(s[2 * i]).unwrap() as int * 16 + hex_value(s[2 * i + 1]).unwrap() as int) as u8)
}

/// `k` is the first position of `s` that holds no hex digit.
pub open spec fn first_non_hex(s: Seq<u8>, k: int) -> bool {
    &&& 0 <= k < s.len()
    &&& hex_value(s[k]) is None
    &&& forall|j: int| 0 <= j < k ==> hex_value(#[trigger] s[j]) is Some
}

/// The result of decoding the hexadecimal numeral held in the bytes `s`.
pub open spec fn hex_decoded(s: Seq<u8>) -> Result<Seq<u8>, HexError> {
    if s.len() % 2 != 0 {
        Err(HexError::OddLength)
    } else if exists|k: int| first_non_hex(s, k) {
        let k = choose|k: int| first_non_hex(s, k);
        Err(HexError::InvalidHexCharacter { c: s[k] as char, index: k as usize })
    } else {
        Ok(hex_bytes(s))
    }
}

/// Calls `hex::encode`. Trusted: the result is the lowercase hexadecimal numeral of
/// `data`, two digits per byte, high nibble first.
#[verifier::external_body]
pub(crate) fn hex_encode(data: &[u8]) -> (s: String)
    ensures
        s@ == hex_lower(data@),
{
    hex::encode(data)
}

/// Calls `hex::decode` on the UTF-8 bytes of `s`. Trusted: an input of odd length is
/// refused with `OddLength`; otherwise the first byte that is no hex digit (either case)
/// is reported with its position; otherwise each pair of digits gives one byte.
#[verifier::external_body]
pub(crate) fn hex_decode(s: &str) -> (r: Result<Vec<u8>, HexError>)
    ensures
        match hex_decoded(s.spec_bytes()) {
            Ok(bytes) => r matches Ok(v) && v@ == bytes,
            Err(e) => r == Err::<Vec<u8>, HexError>(e),
        },
{
    match hex::decode(s) {
        Ok(v) => Ok(v),
        Err(hex::FromHexError::InvalidHexCharacter { c, index }) => Err(HexError::InvalidHexCharacter { c, index }),
        Err(hex::FromHexError::OddLength) => Err(HexError::OddLength),
        Err(hex::FromHexError::InvalidStringLength) => Err(HexError::InvalidStringLength),
    }
}

} // verus!
