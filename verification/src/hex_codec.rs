//! Hexadecimal text for byte strings, through the `hex` crate.

use vstd::prelude::*;

use hex::FromHex;

verus! {

/// Why a hexadecimal string could not be decoded.
#[derive(Clone, Copy, Debug, PartialEq, Eq, Structural)]
pub enum HexError {
    /// A character that is not a hexadecimal digit, and its index in the input.
    InvalidHexCharacter { c: char, index: usize },
    /// The input has an odd number of digits.
    OddLength,
    /// The decoded bytes do not have an acceptable length.
    InvalidStringLength,
}

/// The ASCII code of hexadecimal digit `d` (`d < 16`), lower or upper case.
pub open spec fn hex_digit(d: u8, upper: bool) -> u8 {
    if d < 10 {
        (48 + d) as u8
    } else if upper {
        (55 + d) as u8
    } else {
        (87 + d) as u8
    }
}

/// The ASCII codes of the hexadecimal encoding of `bytes`: two digits per byte,
/// most significant nibble first.
pub open spec fn hex_ascii(bytes: Seq<u8>, upper: bool) -> Seq<u8>
    decreases bytes.len(),
{
    if bytes.len() == 0 {
        Seq::empty()
    } else {
        seq![hex_digit(bytes[0] / 16, upper), hex_digit(bytes[0] % 16, upper)] + hex_ascii(
            bytes.drop_first(),
            upper,
        )
    }
}

/// The characters of the hexadecimal encoding of `bytes`.
pub open spec fn hex_chars(bytes: Seq<u8>, upper: bool) -> Seq<char> {
    hex_ascii(bytes, upper).map_values(|c: u8| c as char)
}

/// The value of the hexadecimal digit with ASCII code `c`, in either case.
pub open spec fn hex_nibble(c: u8) -> Option<u8> {
    if 48 <= c <= 57 {
        Some((c - 48) as u8)
    } else if 65 <= c <= 70 {
        Some((c - 55) as u8)
    } else if 97 <= c <= 102 {
        Some((c - 87) as u8)
    } else {
        None
    }
}

/// Every character of `text` is a hexadecimal digit.
pub open spec fn all_hex_digits(text: Seq<u8>) -> bool {
    forall|i: int| 0 <= i < text.len() ==> (#[trigger] hex_nibble(text[i])) is Some
}

/// The index of the first character of `text` that is not a hexadecimal digit.
pub open spec fn first_non_hex_digit(text: Seq<u8>) -> int {
    choose|i: int|
        0 <= i < text.len() && hex_nibble(text[i]) is None && forall|j: int|
            0 <= j < i ==> (#[trigger] hex_nibble(text[j])) is Some
}

/// The bytes that a hexadecimal `text` of even length and only digits encodes.
pub open spec fn hex_decoded(text: Seq<u8>) -> Seq<u8> {
    Seq::new(
        (text.len() / 2) as nat,
        |j: int|
            (hex_nibble(text[2 * j])->Some_0 * 16 + hex_nibble(text[2 * j + 1])->Some_0) as u8,
    )
}

/// Decoding hexadecimal text: an odd length is refused first, then the first
/// character that is not a digit, in either case.
pub open spec fn spec_hex_decode(text: Seq<u8>) -> Result<Seq<u8>, HexError> {
    if text.len() % 2 != 0 {
        Err(HexError::OddLength)
    } else if !all_hex_digits(text) {
        let i = first_non_hex_digit(text);
        Err(HexError::InvalidHexCharacter { c: text[i] as char, index: i as usize })
    } else {
        Ok(hex_decoded(text))
    }
}

/// Encodes `data` as lower-case hexadecimal, with `hex::encode`: two digits per
/// byte, most significant nibble first.
#[verifier::external_body]
pub(crate) fn hex_encode(data: &[u8]) -> (res: String)
    ensures
        res@ == hex_chars(data@, false),
{
    hex::encode(data)
}

/// Encodes `data` as upper-case hexadecimal, with `hex::encode_upper`.
#[verifier::external_body]
pub(crate) fn hex_encode_upper(data: &[u8]) -> (res: String)
    ensures
        res@ == hex_chars(data@, true),
{
    hex::encode_upper(data)
}

/// Decodes hexadecimal `text` with `<Vec<u8> as hex::FromHex>::from_hex`, which
/// accepts digits of either case, refuses an odd length before looking at the
/// digits, and otherwise reports the first character that is not a digit.
#[verifier::external_body]
pub(crate) fn hex_decode(text: &[u8]) -> (res: Result<Vec<u8>, HexError>)
    ensures
        match res {
            Ok(bytes) => spec_hex_decode(text@) == Ok::<Seq<u8>, HexError>(bytes@),
            Err(e) => spec_hex_decode(text@) == Err::<Seq<u8>, HexError>(e),
        },
{
    match Vec::<u8>::from_hex(text) {
        Ok(bytes) => Ok(bytes),
        Err(hex::FromHexError::InvalidHexCharacter { c, index }) => Err(
            HexError::InvalidHexCharacter { c, index },
        ),
        Err(hex::FromHexError::OddLength) => Err(HexError::OddLength),
        Err(hex::FromHexError::InvalidStringLength) => Err(HexError::InvalidStringLength),
    }
}

/// Decoding the hexadecimal encoding of any byte string, in either case, gives
/// back that byte string.
pub proof fn law_hex_decode_encode(bytes: Seq<u8>, upper: bool)
    ensures
        spec_hex_decode(hex_ascii(bytes, upper)) == Ok::<Seq<u8>, HexError>(bytes),
{
    let text = hex_ascii(bytes, upper);
    lemma_hex_ascii_shape(bytes, upper);
    assert(text.len() % 2 == 0);
    assert forall|i: int| 0 <= i < text.len() implies (#[trigger] hex_nibble(text[i])) is Some by {
        let j = i / 2;
        if i % 2 == 0 {
            assert(i == 2 * j);
            assert(hex_nibble(text[2 * j]) is Some);
        } else {
            assert(i == 2 * j + 1);
            assert(hex_nibble(text[2 * j]) is Some);
        }
    }
    assert(all_hex_digits(text));
    assert forall|j: int| 0 <= j < bytes.len() implies #[trigger] hex_decoded(text)[j] == bytes[j] by {
        assert(hex_nibble(text[2 * j]) == Some((bytes[j] / 16) as u8));
        let b = bytes[j];
        assert(((b / 16) as u8) * 16 + ((b % 16) as u8) == b);
    }
    assert(hex_decoded(text) =~= bytes);
}

/// The shape of an encoding: twice the length, and each pair of digits decodes to its byte.
proof fn lemma_hex_ascii_shape(bytes: Seq<u8>, upper: bool)
    ensures
        hex_ascii(bytes, upper).len() == 2 * bytes.len(),
        forall|j: int|
            0 <= j < bytes.len() ==> hex_nibble(#[trigger] hex_ascii(bytes, upper)[2 * j])
                == Some((bytes[j] / 16) as u8) && hex_nibble(hex_ascii(bytes, upper)[2 * j + 1])
                == Some((bytes[j] % 16) as u8),
    decreases bytes.len(),
{
    if bytes.len() > 0 {
        let rest = bytes.drop_first();
        lemma_hex_ascii_shape(rest, upper);
        let text = hex_ascii(bytes, upper);
        assert forall|j: int| 0 <= j < bytes.len() implies hex_nibble(#[trigger] text[2 * j])
            == Some((bytes[j] / 16) as u8) && hex_nibble(text[2 * j + 1]) == Some(
            (bytes[j] % 16) as u8,
        ) by {
            if j > 0 {
                assert(text[2 * j] == hex_ascii(rest, upper)[2 * (j - 1)]);
                assert(text[2 * j + 1] == hex_ascii(rest, upper)[2 * (j - 1) + 1]);
                assert(rest[j - 1] == bytes[j]);
            }
        }
    }
}

} // verus!
