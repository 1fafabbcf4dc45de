//! Hexadecimal text, as the node expects blobs to be written.

use vstd::prelude::*;
use vstd::utf8::encode_utf8;

verus! {

/// Why a text is not the hexadecimal form of a byte sequence.
#[derive(Debug, Clone, Copy, PartialEq, Eq)]
pub enum HexError {
    /// The byte at `index` is no hexadecimal digit; `c` is that byte as a character.
    InvalidHexCharacter { c: char, index: usize },
    /// The text has an odd number of bytes.
    OddLength,
    /// The text does not fill a container of fixed size. Decoding into a
    /// vector, as this crate does, never reports it.
    InvalidStringLength,
}

/// The lower-case digit for `n`, where `n` is below sixteen.
pub open spec fn hex_digit(n: int) -> char {
    if n < 10 {
        ((n + 0x30) as u8) as char
    } else {
        ((n + 0x57) as u8) as char
    }
}

/// The hexadecimal text of `bytes`: two lower-case digits for each byte, the
/// high half first.
pub open spec fn hex_text(bytes: Seq<u8>) -> Seq<char> {
    Seq::new(
        2 * bytes.len(),
        |i: int|
            if i % 2 == 0 {
                hex_digit(bytes[i / 2] as int / 16)
            } else {
                hex_digit(bytes[i / 2] as int % 16)
            },
    )
}

/// The number that the digit `b` stands for, in either case; `None` where `b`
/// is no hexadecimal digit.
pub open spec fn hex_value(b: u8) -> Option<int> {
    if 0x30 <= b <= 0x39 {
        Some(b - 0x30)
    } else if 0x41 <= b <= 0x46 {
        Some(b - 0x41 + 10)
    } else if 0x61 <= b <= 0x66 {
        Some(b - 0x61 + 10)
    } else {
        None
    }
}

/// How many bytes at the start of `text` are hexadecimal digits.
pub open spec fn hex_prefix_len(text: Seq<u8>) -> int
    decreases text.len(),
{
    if text.len() > 0 && hex_value(text[0]) is Some {
        1 + hex_prefix_len(text.drop_first())
    } else {
        0
    }
}

/// The bytes that a text of hexadecimal digits stands for, a pair of digits
/// for each byte.
pub open spec fn hex_bytes(text: Seq<u8>) -> Seq<u8> {
    Seq::new(
        text.len() / 2,
        |i: int| (16 * hex_value(text[2 * i])->0 + hex_value(text[2 * i + 1])->0) as u8,
    )
}

/// What decoding `text` gives: its bytes, or the first reason why it has none.
pub open spec fn hex_decoded(text: Seq<u8>) -> Result<Seq<u8>, HexError> {
    let k = hex_prefix_len(text);
    if text.len() % 2 != 0 {
        Err(HexError::OddLength)
    } else if k < text.len() {
        Err(HexError::InvalidHexCharacter { c: text[k] as char, index: k as usize })
    } else {
        Ok(hex_bytes(text))
    }
}

/// Calls `hex::encode`. Trusted: the text holds, for each byte in turn, the
/// lower-case digit of its high half and then that of its low half.
#[verifier::external_body]
pub(crate) fn encode_hex(data: &[u8]) -> (text: String)
    ensures
        text@ == hex_text(data@),
{
    hex::encode(data)
}

/// Calls `hex::decode` on the bytes of `text`. Trusted: a text of odd length
/// is refused as such; otherwise the first byte that is no digit is reported
/// with its index; otherwise each pair of digits gives one byte.
#[verifier::external_body]
pub(crate) fn decode_hex(text: &str) -> (r: Result<Vec<u8>, HexError>)
    ensures
        match r {
            Ok(bytes) => hex_decoded(encode_utf8(text@)) == Ok::<Seq<u8>, HexError>(bytes@),
            Err(e) => hex_decoded(encode_utf8(text@)) == Err::<Seq<u8>, HexError>(e),
        },
{
    match hex::decode(text) {
        Ok(bytes) => Ok(bytes),
        Err(hex::FromHexError::InvalidHexCharacter { c, index }) => Err(
            HexError::InvalidHexCharacter { c, index },
        ),
        Err(hex::FromHexError::OddLength) => Err(HexError::OddLength),
        Err(hex::FromHexError::InvalidStringLength) => Err(HexError::InvalidStringLength),
    }
}

/// A text in which every byte is a hexadecimal digit has no shorter prefix of
/// digits than itself.
proof fn lemma_prefix_of_digits(text: Seq<u8>)
    requires
        forall|i: int| 0 <= i < text.len() ==> hex_value(#[trigger] text[i]) is Some,
    ensures
        hex_prefix_len(text) == text.len(),
    decreases text.len(),
{
    if text.len() > 0 {
        let rest = text.drop_first();
        assert forall|i: int| 0 <= i < rest.len() implies hex_value(#[trigger] rest[i]) is Some by {
            assert(rest[i] == text[i + 1]);
        }
        lemma_prefix_of_digits(rest);
    }
}

/// The digit for `n` is an ASCII character, and read back as a byte it has
/// the value `n`.
proof fn lemma_digit_value(n: int)
    requires
        0 <= n < 16,
    ensures
        '\0' <= hex_digit(n) <= '\u{7f}',
        hex_value(hex_digit(n) as u8) == Some(n),
{
}

/// Decoding undoes encoding: the hexadecimal text of any byte sequence, the
/// empty one included, decodes to that sequence.
pub proof fn lemma_hex_round_trip(bytes: Seq<u8>)
    ensures
        hex_decoded(encode_utf8(hex_text(bytes))) == Ok::<Seq<u8>, HexError>(bytes),
{
    let chars = hex_text(bytes);
    let text = encode_utf8(chars);
    assert forall|i: int| 0 <= i < chars.len() implies '\0' <= #[trigger] chars[i] <= '\u{7f}' by {
        lemma_digit_value(bytes[i / 2] as int / 16);
        lemma_digit_value(bytes[i / 2] as int % 16);
    }
    vstd::utf8::is_ascii_chars_encode_utf8(chars);
    assert forall|i: int| 0 <= i < text.len() implies hex_value(#[trigger] text[i]) == Some(
        if i % 2 == 0 {
            bytes[i / 2] as int / 16
        } else {
            bytes[i / 2] as int % 16
        },
    ) by {
        lemma_digit_value(bytes[i / 2] as int / 16);
        lemma_digit_value(bytes[i / 2] as int % 16);
        assert(text[i] == chars[i] as u8);
    }
    lemma_prefix_of_digits(text);
    assert(hex_bytes(text) =~= bytes) by {
        assert forall|j: int| 0 <= j < bytes.len() implies hex_bytes(text)[j] == bytes[j] by {
            assert(hex_value(text[2 * j]) == Some(bytes[j] as int / 16));
            assert(hex_value(text[2 * j + 1]) == Some(bytes[j] as int % 16));
        }
    }
}

} // verus!
