//! Hexadecimal text as the battery protocol uses it, with the encoding and
//! decoding themselves done by the `hex` crate.
use vstd::prelude::*;

verus! {

/// Why a hexadecimal text could not be decoded.
#[derive(Debug, Clone, Copy, PartialEq, Eq, Structural)]
pub enum HexError {
    /// A byte that is not one of `0-9`, `a-f`, `A-F`; `index` is its position.
    InvalidHexCharacter { c: char, index: usize },
    /// The text has an odd number of digits.
    OddLength,
    /// The text does not fit the target's length.
    InvalidStringLength,
}

/// The uppercase hexadecimal digit (as an ASCII byte) for a value below 16.
pub open spec fn upper_hex_digit(n: nat) -> u8 {
    if n < 10 {
        (48 + n) as u8
    } else {
        (55 + n) as u8
    }
}

/// The value of a hexadecimal digit byte, in either case.
pub open spec fn hex_digit_value(b: u8) -> Option<nat> {
    if 48 <= b <= 57 {
        Some((b - 48) as nat)
    } else if 65 <= b <= 70 {
        Some((b - 55) as nat)
    } else if 97 <= b <= 102 {
        Some((b - 87) as nat)
    } else {
        None
    }
}

pub open spec fn is_hex_digit(b: u8) -> bool {
    hex_digit_value(b) is Some
}

pub open spec fn all_hex_digits(s: Seq<u8>) -> bool {
    forall|i: int| 0 <= i < s.len() ==> #[trigger] is_hex_digit(s[i])
}

/// Two uppercase hexadecimal digits per byte, high nibble first.
pub open spec fn hex_upper(data: Seq<u8>) -> Seq<u8> {
    Seq::new(
        2 * data.len(),
        |i: int|
            if i % 2 == 0 {
                upper_hex_digit((data[i / 2] / 16) as nat)
            } else {
                upper_hex_digit((data[i / 2] % 16) as nat)
            },
    )
}

/// The bytes that an even-length text of hexadecimal digits stands for.
pub open spec fn hex_bytes(s: Seq<u8>) -> Seq<u8> {
    Seq::new(
        s.len() / 2,
        |i: int|
            (hex_digit_value(s[2 * i]).unwrap() * 16 + hex_digit_value(s[2 * i + 1]).unwrap()) as u8,
    )
}

/// `hex::encode_upper`: each byte becomes two uppercase hexadecimal digits,
/// high nibble first; the text is returned as its ASCII bytes.
#[verifier::external_body]
pub(crate) fn encode_upper(data: &[u8]) -> (res: Vec<u8>)
    ensures
        res@ == hex_upper(data@),
{
    hex::encode_upper(data).into_bytes()
}

/// `err` is `Err(InvalidHexCharacter)` naming the first byte of `s` that is
/// no hexadecimal digit.
pub open spec fn invalid_character_error<T>(s: Seq<u8>, res: Result<T, HexError>) -> bool {
    &&& res matches Err(HexError::InvalidHexCharacter { c, index })
    &&& index < s.len()
    &&& !is_hex_digit(s[index as int])
    &&& all_hex_digits(s.take(index as int))
    &&& c == s[index as int] as char
}

/// `hex::decode`: an odd length fails with `OddLength`; otherwise the first
/// byte that is no hexadecimal digit fails with `InvalidHexCharacter` (the
/// byte read as a char, and its position); otherwise each pair of digits
/// becomes one byte.
#[verifier::external_body]
pub(crate) fn decode(data: &[u8]) -> (res: Result<Vec<u8>, HexError>)
    ensures
        data@.len() % 2 == 1 ==> res matches Err(HexError::OddLength),
        data@.len() % 2 == 0 && all_hex_digits(data@) ==> res is Ok && res->Ok_0@ == hex_bytes(data@),
        data@.len() % 2 == 0 && !all_hex_digits(data@) ==> invalid_character_error(data@, res),
{
    match hex::decode(data) {
        Ok(bytes) => Ok(bytes),
        Err(hex::FromHexError::InvalidHexCharacter { c, index }) => Err(HexError::InvalidHexCharacter { c, index }),
        Err(hex::FromHexError::OddLength) => Err(HexError::OddLength),
        Err(hex::FromHexError::InvalidStringLength) => Err(HexError::InvalidStringLength),
    }
}

/// Decoding the uppercase encoding of `data` gives `data` back.
pub proof fn lemma_hex_upper_roundtrip(data: Seq<u8>)
    ensures
        hex_upper(data).len() % 2 == 0,
        all_hex_digits(hex_upper(data)),
        hex_bytes(hex_upper(data)) == data,
{
    let h = hex_upper(data);
    assert forall|i: int| 0 <= i < h.len() implies #[trigger] is_hex_digit(h[i]) by {
        let b = data[i / 2];
        assert(b / 16 < 16 && b % 16 < 16);
    }
    assert forall|i: int| 0 <= i < data.len() implies #[trigger] hex_bytes(h)[i] == data[i] by {
        let b = data[i];
        assert((2 * i) / 2 == i);
        assert((2 * i + 1) / 2 == i);
        assert((2 * i) % 2 == 0);
        assert((2 * i + 1) % 2 == 1);
        assert(hex_digit_value(h[2 * i]).unwrap() == b / 16);
        assert(hex_digit_value(h[2 * i + 1]).unwrap() == b % 16);
        assert((b / 16) * 16 + b % 16 == b);
    }
    assert(hex_bytes(h) =~= data);
}

} // verus!
