use vstd::prelude::*;
use vstd::string::StringSliceAdditionalSpecFns;

verus! {

/// Why a text is not the hexadecimal notation of some bytes.
#[derive(Debug, Clone, Copy, PartialEq, Eq, Structural)]
pub enum HexError {
    /// The character `c` at `index` is no hexadecimal digit.
    InvalidCharacter { c: char, index: usize },
    /// The text has an odd number of characters.
    OddLength,
    /// The text has not the length of the bytes it is decoded into.
    InvalidStringLength,
}

/// The number that one character of hexadecimal notation stands for: `0` to
/// `9`, then `a` to `f` in either case; no other character stands for one.
pub open spec fn hex_digit_value(c: u8) -> Option<nat> {
    if 0x30 <= c <= 0x39 {
        Some((c - 0x30) as nat)
    } else if 0x61 <= c <= 0x66 {
        Some((c - 0x61 + 10) as nat)
    } else if 0x41 <= c <= 0x46 {
        Some((c - 0x41 + 10) as nat)
    } else {
        None
    }
}

/// Whether a text is hexadecimal notation: digits only, two for each byte.
pub open spec fn is_hex_text(text: Seq<u8>) -> bool {
    text.len() % 2 == 0 && forall|i: int| 0 <= i < text.len() ==> hex_digit_value(#[trigger] text[i]) is Some
}

/// The byte that the digits `2 * i` and `2 * i + 1` of a text stand for.
pub open spec fn hex_byte(text: Seq<u8>, i: int) -> u8 {
    (hex_digit_value(text[2 * i]).unwrap() * 16 + hex_digit_value(text[2 * i + 1]).unwrap()) as u8
}

/// The bytes that a text in hexadecimal notation stands for.
pub open spec fn hex_decoded(text: Seq<u8>) -> Seq<u8> {
    Seq::new(text.len() / 2, |i: int| hex_byte(text, i))
}

/// Whether `index` is the place of the first character of `text` that is no
/// hexadecimal digit.
pub open spec fn is_first_bad_digit(text: Seq<u8>, index: int) -> bool {
    &&& 0 <= index < text.len()
    &&& hex_digit_value(text[index]) is None
    &&& forall|j: int| 0 <= j < index ==> hex_digit_value(#[trigger] text[j]) is Some
}

/// Whether `fault` is what is wrong with `text`: its length where that is
/// odd, else its first character that is no hexadecimal digit.
pub open spec fn is_hex_fault(text: Seq<u8>, fault: HexError) -> bool {
    match fault {
        HexError::OddLength => text.len() % 2 == 1,
        HexError::InvalidCharacter { c, index } => {
            &&& text.len() % 2 == 0
            &&& is_first_bad_digit(text, index as int)
            &&& c == text[index as int] as char
        },
        HexError::InvalidStringLength => false,
    }
}

/// `hex::decode`. It refuses a text of odd length before it looks at any
/// character, then reads two digits for each byte, the high half first, and
/// stops at the first character that is no digit, which it reports with its
/// place. It never reports `InvalidStringLength` for a byte vector.
#[verifier::external_body]
pub(crate) fn hex_decode(text: &[u8]) -> (r: Result<Vec<u8>, HexError>)
    ensures
        r is Ok <==> is_hex_text(text@),
        r matches Ok(bytes) ==> bytes@ == hex_decoded(text@),
        r matches Err(fault) ==> is_hex_fault(text@, fault),
{
    match ::hex::decode(text) {
        Ok(bytes) => Ok(bytes),
        Err(::hex::FromHexError::InvalidHexCharacter { c, index }) => Err(HexError::InvalidCharacter { c, index }),
        Err(::hex::FromHexError::OddLength) => Err(HexError::OddLength),
        Err(::hex::FromHexError::InvalidStringLength) => Err(HexError::InvalidStringLength),
    }
}

/// Decodes a text in hexadecimal notation into the bytes it stands for.
pub fn decode_hex(text: &str) -> (r: Result<Vec<u8>, HexError>)
    ensures
        r is Ok <==> is_hex_text(text.spec_bytes()),
        r matches Ok(bytes) ==> bytes@ == hex_decoded(text.spec_bytes()),
        r matches Err(fault) ==> is_hex_fault(text.spec_bytes(), fault),
{
    hex_decode(text.as_bytes())
}

} // verus!
