//! Hexadecimal text: two digits for each byte, high nibble first.

use vstd::prelude::*;

verus! {

/// Why a text is not the hexadecimal form of any bytes.
#[derive(Debug, Clone, Copy, PartialEq, Eq, Structural)]
pub enum HexError {
    /// The text has an odd number of digits.
    OddLength,
    /// The character at `index` is no hexadecimal digit, and every
    /// character before it is one.
    InvalidCharacter { index: usize },
}

/// The sixteen lower-case digits.
pub open spec fn hex_digits() -> Seq<char> {
    seq!['0', '1', '2', '3', '4', '5', '6', '7', '8', '9', 'a', 'b', 'c', 'd', 'e', 'f']
}

/// The lower-case hexadecimal form of `bytes`.
pub open spec fn hex_encode_spec(bytes: Seq<u8>) -> Seq<char> {
    Seq::new(
        2 * bytes.len(),
        |i: int|
            if i % 2 == 0 {
                hex_digits()[bytes[i / 2] as int / 16]
            } else {
                hex_digits()[bytes[i / 2] as int % 16]
            },
    )
}

/// The value of an ASCII hexadecimal digit of either case.
pub open spec fn hex_value(c: u8) -> Option<int> {
    if 48 <= c <= 57 {
        Some(c - 48)
    } else if 97 <= c <= 102 {
        Some(c - 87)
    } else if 65 <= c <= 70 {
        Some(c - 55)
    } else {
        None
    }
}

/// The bytes that a text of valid digits and even length stands for.
pub open spec fn hex_decoded(text: Seq<u8>) -> Seq<u8> {
    Seq::new(
        text.len() / 2,
        |i: int| (hex_value(text[2 * i])->0 * 16 + hex_value(text[2 * i + 1])->0) as u8,
    )
}

/// The index of the first character of `text` that is no digit, or the
/// length of `text` where every character is one.
pub open spec fn first_invalid(text: Seq<u8>) -> int
    decreases text.len(),
{
    if text.len() == 0 {
        0
    } else if hex_value(text[0]) is None {
        0
    } else {
        1 + first_invalid(text.drop_first())
    }
}

/// The outcome of decoding `text`: the bytes where the length is even and
/// every character is a digit, else the first thing that is wrong.
pub open spec fn hex_decode_spec(text: Seq<u8>) -> Result<Seq<u8>, HexError> {
    if text.len() % 2 == 1 {
        Err(HexError::OddLength)
    } else if first_invalid(text) < text.len() {
        Err(HexError::InvalidCharacter { index: first_invalid(text) as usize })
    } else {
        Ok(hex_decoded(text))
    }
}

/// The view of an outcome of decoding.
pub open spec fn hex_result(r: Result<Vec<u8>, HexError>) -> Result<Seq<u8>, HexError> {
    match r {
        Ok(bytes) => Ok(bytes@),
        Err(e) => Err(e),
    }
}

/// `hex::encode` of the `hex` crate: two lower-case digits for each byte.
#[verifier::external_body]
pub(crate) fn hex_encode(bytes: &[u8]) -> (r: String)
    ensures
        r@ == hex_encode_spec(bytes@),
{
    hex::encode(bytes)
}

/// `hex::decode` of the `hex` crate: digits of either case are accepted; a
/// text of odd length is refused as such, any other by its first character
/// that is no digit.
#[verifier::external_body]
pub(crate) fn hex_decode(text: &[u8]) -> (r: Result<Vec<u8>, HexError>)
    ensures
        hex_result(r) == hex_decode_spec(text@),
{
    match hex::decode(text) {
        Ok(bytes) => Ok(bytes),
        Err(hex::FromHexError::InvalidHexCharacter { index, .. }) => Err(
            HexError::InvalidCharacter { index },
        ),
        Err(hex::FromHexError::OddLength) | Err(hex::FromHexError::InvalidStringLength) => Err(
            HexError::OddLength,
        ),
    }
}

/// The bytes of a text of ASCII characters.
pub open spec fn ascii_bytes(text: Seq<char>) -> Seq<u8> {
    text.map_values(|c: char| c as u8)
}

/// Each of the sixteen digits has its index as its value.
proof fn lemma_digit_value(n: int)
    requires
        0 <= n < 16,
    ensures
        hex_value(hex_digits()[n] as u8) == Some(n),
{
    if n == 0 {
    } else if n == 1 {
    } else if n == 2 {
    } else if n == 3 {
    } else if n == 4 {
    } else if n == 5 {
    } else if n == 6 {
    } else if n == 7 {
    } else if n == 8 {
    } else if n == 9 {
    } else if n == 10 {
    } else if n == 11 {
    } else if n == 12 {
    } else if n == 13 {
    } else if n == 14 {
    } else {
    }
}

/// A text of digits only has no first character that is none.
proof fn lemma_all_digits(text: Seq<u8>)
    requires
        forall|j: int| 0 <= j < text.len() ==> hex_value(#[trigger] text[j]) is Some,
    ensures
        first_invalid(text) == text.len(),
    decreases text.len(),
{
    if text.len() > 0 {
        let rest = text.drop_first();
        assert forall|j: int| 0 <= j < rest.len() implies hex_value(#[trigger] rest[j]) is Some by {
            assert(rest[j] == text[j + 1]);
        }
        lemma_all_digits(rest);
    }
}

/// Decoding inverts encoding: the hexadecimal form of any bytes decodes to
/// those bytes.
pub proof fn lemma_hex_decode_inverts_encode(bytes: Seq<u8>)
    ensures
        hex_decode_spec(ascii_bytes(hex_encode_spec(bytes))) == Ok::<Seq<u8>, HexError>(bytes),
{
    let text = ascii_bytes(hex_encode_spec(bytes));
    assert forall|j: int| 0 <= j < text.len() implies hex_value(#[trigger] text[j]) is Some by {
        let b = bytes[j / 2] as int;
        if j % 2 == 0 {
            lemma_digit_value(b / 16);
        } else {
            lemma_digit_value(b % 16);
        }
    }
    lemma_all_digits(text);
    assert forall|i: int| 0 <= i < bytes.len() implies hex_decoded(text)[i] == bytes[i] by {
        let b = bytes[i] as int;
        lemma_digit_value(b / 16);
        lemma_digit_value(b % 16);
        assert((2 * i) / 2 == i && (2 * i) % 2 == 0);
        assert((2 * i + 1) / 2 == i && (2 * i + 1) % 2 == 1);
        assert(text[2 * i] == hex_digits()[b / 16] as u8);
        assert(text[2 * i + 1] == hex_digits()[b % 16] as u8);
        assert((b / 16) * 16 + b % 16 == b);
    }
    assert(hex_decoded(text) =~= bytes);
}

} // verus!
