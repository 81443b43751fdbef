//! Hexadecimal encoding and decoding of byte strings, done by the `hex` crate, with its
//! behaviour stated over ASCII bytes.

use vstd::prelude::*;

verus! {

/// Why a hex string could not be decoded.
#[derive(Clone, Copy, Debug, PartialEq, Eq, Structural)]
pub enum HexError {
    /// The character at `index` is not one of `0-9`, `a-f`, `A-F`.
    InvalidHexCharacter { c: char, index: usize },
    /// The string has an odd number of characters.
    OddLength,
    /// The string's length does not match the size of a fixed-size output.
    InvalidStringLength,
}

/// The lower-case hex digit (an ASCII byte) for a value below 16.
pub open spec fn hex_char(nibble: nat) -> u8 {
    if nibble < 10 {
        (0x30 + nibble) as u8
    } else {
        (0x61 + nibble - 10) as u8
    }
}

/// Lower-case hex encoding: two ASCII digits per byte, high nibble first.
pub open spec fn hex_encode_spec(data: Seq<u8>) -> Seq<u8> {
    Seq::new(
        2 * data.len(),
        |k: int|
            if k % 2 == 0 {
                hex_char(data[k / 2] as nat / 16)
            } else {
                hex_char(data[k / 2] as nat % 16)
            },
    )
}

/// The value of a hex digit (upper or lower case), if `b` is one.
pub open spec fn hex_digit_value(b: u8) -> Option<nat> {
    if 0x30 <= b <= 0x39 {
        Some((b - 0x30) as nat)
    } else if 0x61 <= b <= 0x66 {
        Some((b - 0x61 + 10) as nat)
    } else if 0x41 <= b <= 0x46 {
        Some((b - 0x41 + 10) as nat)
    } else {
        None
    }
}

/// The first position at or after `from` that does not hold a hex digit.
pub open spec fn first_non_hex(data: Seq<u8>, from: int) -> Option<int>
    decreases data.len() - from,
{
    if from < 0 || from >= data.len() {
        None
    } else if hex_digit_value(data[from]) is None {
        Some(from)
    } else {
        first_non_hex(data, from + 1)
    }
}

/// Hex decoding: an odd length is refused first; then the first character that is not a hex
/// digit; otherwise every two digits give one byte, high nibble first.
pub open spec fn hex_decode_spec(data: Seq<u8>) -> Result<Seq<u8>, HexError> {
    if data.len() % 2 != 0 {
        Err(HexError::OddLength)
    } else {
        match first_non_hex(data, 0) {
            Some(i) => Err(HexError::InvalidHexCharacter { c: data[i] as char, index: i as usize }),
            None => Ok(
                Seq::new(
                    data.len() / 2,
                    |k: int|
                        (hex_digit_value(data[2 * k]).unwrap() * 16 + hex_digit_value(
                            data[2 * k + 1],
                        ).unwrap()) as u8,
                ),
            ),
        }
    }
}

/// The mathematical value of a decoding result.
pub open spec fn decoded_view(r: Result<Vec<u8>, HexError>) -> Result<Seq<u8>, HexError> {
    match r {
        Ok(v) => Ok(v@),
        Err(e) => Err(e),
    }
}

/// Calls `hex::encode`, which writes each byte as two lower-case hex digits (high nibble
/// first), and returns the ASCII bytes of the resulting string.
#[verifier::external_body]
pub(crate) fn hex_encode(data: &[u8]) -> (r: Vec<u8>)
    ensures
        r@ == hex_encode_spec(data@),
{
    hex::encode(data).into_bytes()
}

/// Calls `hex::decode`: an odd number of digits gives `OddLength`; otherwise the first byte
/// that is not a hex digit (either case) gives `InvalidHexCharacter` with that byte and its
/// position; otherwise each pair of digits gives one byte. Its error is mapped variant by
/// variant to [`HexError`].
#[verifier::external_body]
pub(crate) fn hex_decode(data: &[u8]) -> (r: Result<Vec<u8>, HexError>)
    ensures
        decoded_view(r) == hex_decode_spec(data@),
{
    match hex::decode(data) {
        Ok(bytes) => Ok(bytes),
        Err(hex::FromHexError::InvalidHexCharacter { c, index }) => Err(
            HexError::InvalidHexCharacter { c, index },
        ),
        Err(hex::FromHexError::OddLength) => Err(HexError::OddLength),
        Err(hex::FromHexError::InvalidStringLength) => Err(HexError::InvalidStringLength),
    }
}

/// Every character of a hex encoding is a hex digit, with the value it was written for.
proof fn lemma_hex_char_value(nibble: nat)
    requires
        nibble < 16,
    ensures
        hex_digit_value(hex_char(nibble)) == Some(nibble),
{
}

/// No position of a hex encoding at or after `from` holds a non-digit.
proof fn lemma_encoding_all_digits(data: Seq<u8>, from: int)
    requires
        0 <= from,
    ensures
        first_non_hex(hex_encode_spec(data), from) is None,
    decreases hex_encode_spec(data).len() - from,
{
    let enc = hex_encode_spec(data);
    if from < enc.len() {
        let b: nat = data[from / 2] as nat;
        lemma_hex_char_value(b / 16);
        lemma_hex_char_value(b % 16);
        lemma_encoding_all_digits(data, from + 1);
    }
}

/// Decoding the hex encoding of a byte string gives the byte string back.
pub proof fn lemma_hex_roundtrip(data: Seq<u8>)
    ensures
        hex_decode_spec(hex_encode_spec(data)) == Ok::<Seq<u8>, HexError>(data),
{
    let enc = hex_encode_spec(data);
    lemma_encoding_all_digits(data, 0);
    assert(enc.len() % 2 == 0);
    let decoded = Seq::new(
        enc.len() / 2,
        |k: int|
            (hex_digit_value(enc[2 * k]).unwrap() * 16 + hex_digit_value(enc[2 * k + 1]).unwrap()) as u8,
    );
    assert forall|k: int| 0 <= k < data.len() implies decoded[k] == data[k] by {
        let b: nat = data[k] as nat;
        lemma_hex_char_value(b / 16);
        lemma_hex_char_value(b % 16);
        assert((2 * k) / 2 == k);
        assert((2 * k + 1) / 2 == k);
        assert(b == (b / 16) * 16 + b % 16);
    }
    assert(decoded =~= data);
}

/// The ASCII upper-case form of a byte: `a-z` become `A-Z`, every other byte stays.
pub open spec fn ascii_upper(b: u8) -> u8 {
    if 0x61 <= b <= 0x7a {
        (b - 0x20) as u8
    } else {
        b
    }
}

/// A byte string with every ASCII letter in upper case.
pub open spec fn ascii_uppercase(data: Seq<u8>) -> Seq<u8> {
    Seq::new(data.len(), |k: int| ascii_upper(data[k]))
}

/// Upper-casing a byte keeps its hex digit value (or its lack of one).
proof fn lemma_hex_digit_value_upper(b: u8)
    ensures
        hex_digit_value(ascii_upper(b)) == hex_digit_value(b),
{
}

/// Upper-casing a string does not move its first non-digit.
proof fn lemma_first_non_hex_upper(data: Seq<u8>, from: int)
    ensures
        first_non_hex(ascii_uppercase(data), from) == first_non_hex(data, from),
    decreases data.len() - from,
{
    if 0 <= from < data.len() {
        lemma_hex_digit_value_upper(data[from]);
        lemma_first_non_hex_upper(data, from + 1);
    }
}

/// Hex decoding does not depend on the case of the digits: a string decodes if and only if
/// its upper-case form does, and then both give the same bytes.
pub proof fn lemma_hex_decode_ignores_case(data: Seq<u8>)
    ensures
        hex_decode_spec(ascii_uppercase(data)) is Ok <==> hex_decode_spec(data) is Ok,
        hex_decode_spec(data) is Ok ==> hex_decode_spec(ascii_uppercase(data)) == hex_decode_spec(
            data,
        ),
{
    let up = ascii_uppercase(data);
    lemma_first_non_hex_upper(data, 0);
    if hex_decode_spec(data) is Ok {
        let a = hex_decode_spec(data)->Ok_0;
        let b = hex_decode_spec(up)->Ok_0;
        assert forall|k: int| 0 <= k < a.len() implies b[k] == a[k] by {
            lemma_hex_digit_value_upper(data[2 * k]);
            lemma_hex_digit_value_upper(data[2 * k + 1]);
        }
        assert(b =~= a);
    }
}

/// Decoding the upper-case form of a hex encoding also gives the bytes back: digits `A-F` are
/// read as `a-f`.
pub proof fn lemma_hex_roundtrip_upper(data: Seq<u8>)
    ensures
        hex_decode_spec(ascii_uppercase(hex_encode_spec(data))) == Ok::<Seq<u8>, HexError>(data),
{
    lemma_hex_roundtrip(data);
    lemma_hex_decode_ignores_case(hex_encode_spec(data));
}

/// A hex encoding has two characters per byte.
pub proof fn lemma_hex_encode_len(data: Seq<u8>)
    ensures
        hex_encode_spec(data).len() == 2 * data.len(),
{
}

} // verus!
