//! Bytes written as hexadecimal text, two digits to a byte.

use crate::text::{slice_to_string, to_chars};
use vstd::prelude::*;

verus! {

/// The value of a hexadecimal digit, in either case.
pub open spec fn hex_digit_value(c: char) -> Option<int> {
    if '0' <= c <= '9' {
        Some(c as int - '0' as int)
    } else if 'a' <= c <= 'f' {
        Some(c as int - 'a' as int + 10)
    } else if 'A' <= c <= 'F' {
        Some(c as int - 'A' as int + 10)
    } else {
        None
    }
}

/// Whether `s` is an even number of hexadecimal digits.
pub open spec fn is_hex_text(s: Seq<char>) -> bool {
    s.len() % 2 == 0 && forall|i: int| 0 <= i < s.len() ==> hex_digit_value(#[trigger] s[i]) is Some
}

/// The bytes that the hexadecimal text `s` stands for.
pub open spec fn hex_bytes(s: Seq<char>) -> Seq<u8> {
    Seq::new(
        s.len() / 2,
        |i: int| (16 * hex_digit_value(s[2 * i])->0 + hex_digit_value(s[2 * i + 1])->0) as u8,
    )
}

/// The lower-case hexadecimal digit of value `v`.
pub open spec fn hex_digit(v: int) -> char {
    if 0 <= v < 10 {
        ('0' as int + v) as char
    } else {
        ('a' as int + v - 10) as char
    }
}

/// The lower-case hexadecimal text of `bytes`.
pub open spec fn hex_text(bytes: Seq<u8>) -> Seq<char> {
    Seq::new(
        2 * bytes.len(),
        |i: int|
            if i % 2 == 0 {
                hex_digit(bytes[i / 2] as int / 16)
            } else {
                hex_digit(bytes[i / 2] as int % 16)
            },
    )
}

/// What the reader of hexadecimal text says of a text that it refuses.
pub uninterp spec fn hex_refusal(text: Seq<char>) -> Seq<char>;

/// Calls `hex::decode`. It looks at the bytes of the text: it fails on an odd
/// number of them and on any byte that is no hexadecimal digit, and else
/// makes one byte of every two digits, the first digit being the higher half.
/// A character outside ASCII has only bytes that are no digits, so the text
/// is accepted exactly when its characters are an even number of digits. Its
/// error is written out by its `Display`, and these words are named, not
/// stated: `hex_refusal`.
#[verifier::external_body]
pub(crate) fn hex_decode(text: &str) -> (r: Result<Vec<u8>, String>)
    ensures
        r is Ok <==> is_hex_text(text@),
        r matches Ok(bytes) ==> bytes@ == hex_bytes(text@),
        r matches Err(reason) ==> reason@ == hex_refusal(text@),
{
    match hex::decode(text) {
        Ok(bytes) => Ok(bytes),
        Err(e) => Err(e.to_string()),
    }
}

/// Calls `hex::encode`, which writes every byte as two lower-case
/// hexadecimal digits, the higher half first.
#[verifier::external_body]
pub(crate) fn hex_encode(bytes: &[u8]) -> (r: String)
    ensures
        r@ == hex_text(bytes@),
{
    hex::encode(bytes)
}

/// The hexadecimal text of `bytes`, after the marker `0x`.
pub open spec fn marked_hex_text(bytes: Seq<u8>) -> Seq<char> {
    seq!['0', 'x'] + hex_text(bytes)
}

/// Writes `bytes` as hexadecimal text after the marker `0x`.
pub fn to_marked_hex(bytes: &[u8]) -> (r: String)
    ensures
        r@ == marked_hex_text(bytes@),
{
    let mut r = String::from_str("0x");
    proof {
        reveal_strlit("0x");
    }
    let digits = hex_encode(bytes);
    r.append(digits.as_str());
    r
}

/// `s` without a marker `0x` at its start, if it has one.
pub open spec fn without_marker(s: Seq<char>) -> Seq<char> {
    if s.len() >= 2 && s[0] == '0' && s[1] == 'x' {
        s.skip(2)
    } else {
        s
    }
}

/// Reads hexadecimal text, with or without the marker `0x` before it. Fails
/// unless what follows the marker is an even number of hexadecimal digits,
/// and then gives what the reader said of what follows the marker.
pub fn from_marked_hex(text: &str) -> (r: Result<Vec<u8>, String>)
    ensures
        r is Ok <==> is_hex_text(without_marker(text@)),
        r matches Ok(bytes) ==> bytes@ == hex_bytes(without_marker(text@)),
        r matches Err(reason) ==> reason@ == hex_refusal(without_marker(text@)),
{
    let chars = to_chars(text);
    let n = chars.len();
    if n >= 2 && chars[0] == '0' && chars[1] == 'x' {
        let digits = slice_to_string(text, 2, n);
        hex_decode(digits.as_str())
    } else {
        hex_decode(text)
    }
}

/// The hexadecimal text of bytes is read back as these bytes.
pub proof fn lemma_hex_text_reads_back(bytes: Seq<u8>)
    ensures
        is_hex_text(hex_text(bytes)),
        hex_bytes(hex_text(bytes)) == bytes,
{
    let text = hex_text(bytes);
    assert forall|i: int| 0 <= i < text.len() implies hex_digit_value(#[trigger] text[i]) is Some by {
        let b = bytes[i / 2] as int;
        assert(0 <= b / 16 < 16 && 0 <= b % 16 < 16);
    }
    assert forall|k: int| 0 <= k < bytes.len() implies hex_bytes(text)[k] == bytes[k] by {
        let b = bytes[k] as int;
        assert(0 <= b / 16 < 16 && 0 <= b % 16 < 16);
        assert((2 * k) / 2 == k && (2 * k) % 2 == 0);
        assert((2 * k + 1) / 2 == k && (2 * k + 1) % 2 == 1);
        assert(hex_digit_value(text[2 * k]) == Some(b / 16));
        assert(hex_digit_value(text[2 * k + 1]) == Some(b % 16));
        assert(16 * (b / 16) + b % 16 == b);
    }
    assert(hex_bytes(text) =~= bytes);
}

} // verus!
