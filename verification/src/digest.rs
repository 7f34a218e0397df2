//! Firmware digests as the stores publish them: hexadecimal text, with or
//! without the algorithm in front.

use vstd::prelude::*;
use vstd::slice::slice_subrange;
use vstd::string::StringSliceAdditionalSpecFns;

verus! {

/// Why a text is not the hexadecimal form of a byte string.
#[derive(Debug, Clone, Copy, PartialEq, Eq)]
pub enum HexError {
    /// The byte at `index` is no hexadecimal digit.
    InvalidHexCharacter { c: char, index: usize },
    /// Two digits make a byte, so the number of digits must be even.
    OddLength,
    /// The text does not fill a container of fixed size.
    InvalidStringLength,
}

/// The value of a hexadecimal digit, upper or lower case.
pub open spec fn hex_digit(c: u8) -> Option<u8> {
    if 0x30 <= c <= 0x39 {
        Some((c - 0x30) as u8)
    } else if 0x41 <= c <= 0x46 {
        Some((c - 0x41 + 10) as u8)
    } else if 0x61 <= c <= 0x66 {
        Some((c - 0x61 + 10) as u8)
    } else {
        None
    }
}

/// `index` is the place of the first byte of `text` that is no hexadecimal digit.
pub open spec fn first_bad_digit(text: Seq<u8>, index: int) -> bool {
    &&& 0 <= index < text.len()
    &&& hex_digit(text[index]) is None
    &&& forall|j: int| 0 <= j < index ==> hex_digit(#[trigger] text[j]) is Some
}

/// The bytes that an even number of hexadecimal digits stand for.
pub open spec fn hex_bytes(text: Seq<u8>) -> Seq<u8> {
    Seq::new(
        text.len() / 2,
        |i: int| (hex_digit(text[2 * i])->0 * 16 + hex_digit(text[2 * i + 1])->0) as u8,
    )
}

/// `outcome` is what decoding `text` as hexadecimal gives: an odd length is
/// reported first, then the first byte that is no digit, else the bytes.
pub open spec fn is_hex_decoding(text: Seq<u8>, outcome: Result<Seq<u8>, HexError>) -> bool {
    match outcome {
        Ok(bytes) => {
            &&& text.len() % 2 == 0
            &&& forall|j: int| 0 <= j < text.len() ==> hex_digit(#[trigger] text[j]) is Some
            &&& bytes == hex_bytes(text)
        },
        Err(HexError::OddLength) => text.len() % 2 == 1,
        Err(HexError::InvalidHexCharacter { c, index }) => {
            &&& text.len() % 2 == 0
            &&& first_bad_digit(text, index as int)
            &&& c == text[index as int] as char
        },
        Err(HexError::InvalidStringLength) => false,
    }
}

/// The outcome of a decoding, its bytes taken as a sequence.
pub open spec fn decoding_view(outcome: Result<Vec<u8>, HexError>) -> Result<Seq<u8>, HexError> {
    match outcome {
        Ok(bytes) => Ok(bytes@),
        Err(e) => Err(e),
    }
}

/// Calls `hex::decode`. The contract restates its documented behaviour: the
/// input must hold an even number of digits `0-9`, `a-f`, `A-F`, each pair
/// giving one byte, high digit first; otherwise the error names the odd length
/// or the first offending byte and its place.
#[verifier::external_body]
pub(crate) fn hex_decode(text: &[u8]) -> (outcome: Result<Vec<u8>, HexError>)
    ensures
        is_hex_decoding(text@, decoding_view(outcome)),
{
    match hex::decode(text) {
        Ok(bytes) => Ok(bytes),
        Err(hex::FromHexError::InvalidHexCharacter { c, index }) => Err(
            HexError::InvalidHexCharacter { c, index },
        ),
        Err(hex::FromHexError::OddLength) => Err(HexError::OddLength),
        Err(hex::FromHexError::InvalidStringLength) => Err(HexError::InvalidStringLength),
    }
}

/// The algorithm name that may stand in front of a digest: `sha256:`.
pub open spec fn digest_prefix() -> Seq<u8> {
    seq![0x73u8, 0x68u8, 0x61u8, 0x32u8, 0x35u8, 0x36u8, 0x3au8]
}

/// Whether `text` begins with [`digest_prefix`].
pub open spec fn has_digest_prefix(text: Seq<u8>) -> bool {
    text.len() >= 7 && text.subrange(0, 7) == digest_prefix()
}

/// `text` without the [`digest_prefix`] that it may begin with. What follows
/// the prefix is left as it is, also where it begins with the prefix again.
pub open spec fn without_digest_prefix(text: Seq<u8>) -> Seq<u8> {
    if has_digest_prefix(text) {
        text.subrange(7, text.len() as int)
    } else {
        text
    }
}

fn starts_with_digest_prefix(text: &[u8]) -> (b: bool)
    ensures
        b == has_digest_prefix(text@),
{
    if text.len() < 7 {
        return false;
    }
    let b = text[0] == 0x73 && text[1] == 0x68 && text[2] == 0x61 && text[3] == 0x32 && text[4]
        == 0x35 && text[5] == 0x36 && text[6] == 0x3a;
    proof {
        let head = text@.subrange(0, 7);
        if b {
            assert(head =~= digest_prefix());
        } else {
            assert(head[0] == text@[0] && head[1] == text@[1] && head[2] == text@[2] && head[3]
                == text@[3] && head[4] == text@[4] && head[5] == text@[5] && head[6] == text@[6]);
        }
    }
    b
}

/// Removes the `sha256:` that `text` may begin with.
pub fn strip_digest_prefix(text: &[u8]) -> (rest: &[u8])
    ensures
        rest@ == without_digest_prefix(text@),
{
    if starts_with_digest_prefix(text) {
        slice_subrange(text, 7, text.len())
    } else {
        text
    }
}

/// Whether every byte of `text` is a hexadecimal digit.
pub open spec fn all_hex_digits(text: Seq<u8>) -> bool {
    forall|j: int| 0 <= j < text.len() ==> hex_digit(#[trigger] text[j]) is Some
}

/// What decoding `text` as hexadecimal gives.
pub open spec fn hex_decoded(text: Seq<u8>) -> Result<Seq<u8>, HexError> {
    if text.len() % 2 == 1 {
        Err(HexError::OddLength)
    } else if all_hex_digits(text) {
        Ok(hex_bytes(text))
    } else {
        let index = choose|i: int| first_bad_digit(text, i);
        Err(HexError::InvalidHexCharacter { c: text[index] as char, index: index as usize })
    }
}

/// The digest that `checksum` spells out: its hexadecimal digits, after the
/// `sha256:` that it may begin with.
pub open spec fn checksum_bytes(checksum: Seq<u8>) -> Result<Seq<u8>, HexError> {
    hex_decoded(without_digest_prefix(checksum))
}

proof fn lemma_first_bad_digit_exists(text: Seq<u8>, k: int)
    requires
        0 <= k < text.len(),
        hex_digit(text[k]) is None,
    ensures
        exists|i: int| first_bad_digit(text, i),
    decreases k,
{
    if forall|j: int| 0 <= j < k ==> hex_digit(#[trigger] text[j]) is Some {
        assert(first_bad_digit(text, k));
    } else {
        let j = choose|j: int| 0 <= j < k && !(hex_digit(#[trigger] text[j]) is Some);
        lemma_first_bad_digit_exists(text, j);
    }
}

proof fn lemma_first_bad_digit_unique(text: Seq<u8>, a: int, b: int)
    requires
        first_bad_digit(text, a),
        first_bad_digit(text, b),
    ensures
        a == b,
{
    if a < b {
        assert(hex_digit(text[a]) is Some);
    } else if b < a {
        assert(hex_digit(text[b]) is Some);
    }
}

/// The relation [`is_hex_decoding`] holds of exactly one outcome, the one
/// that [`hex_decoded`] names.
pub proof fn lemma_hex_decoding_is_function(text: Seq<u8>, outcome: Result<Seq<u8>, HexError>)
    requires
        text.len() <= usize::MAX,
    ensures
        is_hex_decoding(text, outcome) <==> outcome == hex_decoded(text),
{
    if text.len() % 2 == 0 && !all_hex_digits(text) {
        let k = choose|k: int| 0 <= k < text.len() && !(hex_digit(#[trigger] text[k]) is Some);
        lemma_first_bad_digit_exists(text, k);
        let index = choose|i: int| first_bad_digit(text, i);
        match outcome {
            Err(HexError::InvalidHexCharacter { c, index: at }) => {
                if is_hex_decoding(text, outcome) {
                    lemma_first_bad_digit_unique(text, index, at as int);
                }
            },
            _ => {},
        }
    } else if text.len() % 2 == 0 {
        match outcome {
            Err(HexError::InvalidHexCharacter { c, index: at }) => {
                if is_hex_decoding(text, outcome) {
                    assert(hex_digit(text[at as int]) is Some);
                }
            },
            _ => {},
        }
    }
}

/// Decodes a digest such as `sha256:9f86d0...` or `9f86d0...` into its bytes.
pub fn decode_checksum(checksum: &str) -> (outcome: Result<Vec<u8>, HexError>)
    ensures
        decoding_view(outcome) == checksum_bytes(checksum.spec_bytes()),
{
    let digits = strip_digest_prefix(checksum.as_bytes());
    let outcome = hex_decode(digits);
    proof {
        assert(digits@.len() == digits.len());
        lemma_hex_decoding_is_function(digits@, decoding_view(outcome));
    }
    outcome
}

} // verus!
