//! Account addresses: twenty bytes, written as forty hexadecimal digits.

use crate::hexcode::{
    hex_bytes, hex_digit_value, hex_text, is_hex_text, lemma_hex_text_reads_back, marked_hex_text,
    to_marked_hex, without_marker,
};
use vstd::prelude::*;

verus! {

/// The address of an account or a contract.
#[derive(Clone, Copy, PartialEq, Eq, Debug)]
pub struct Address {
    pub bytes: [u8; 20],
}

impl View for Address {
    type V = Seq<u8>;

    open spec fn view(&self) -> Seq<u8> {
        self.bytes@
    }
}

/// The text did not hold an address. Holds what was wrong with it.
#[derive(Debug, Clone, PartialEq, Eq)]
pub struct InvalidAddress {
    pub reason: String,
}

/// Whether `c` is passed over between the digits of an address: a space, a
/// tab, a carriage return or a line feed.
pub open spec fn is_skipped(c: char) -> bool {
    c == ' ' || c == '\t' || c == '\r' || c == '\n'
}

/// The characters that are not passed over.
pub open spec fn is_kept() -> spec_fn(char) -> bool {
    |c: char| !is_skipped(c)
}

/// The characters of `text` that are read as the digits of an address: all
/// that follow a marker `0x` at the start, but for those passed over.
pub open spec fn address_digits(text: Seq<char>) -> Seq<char> {
    without_marker(text).filter(is_kept())
}

/// Whether `text` holds an address: forty hexadecimal digits.
pub open spec fn is_address_text(text: Seq<char>) -> bool {
    address_digits(text).len() == 40 && is_hex_text(address_digits(text))
}

/// The canonical text of an address: lower-case hexadecimal digits after the
/// marker `0x`.
pub open spec fn address_text(address: Seq<u8>) -> Seq<char> {
    marked_hex_text(address)
}

/// What the reader of addresses says of a text that holds none.
pub uninterp spec fn address_refusal(text: Seq<char>) -> Seq<char>;

/// Calls the `FromStr` of `ethabi::Address`. It drops one `0x` from the start
/// of the text and then reads twenty bytes of two hexadecimal digits each,
/// passing over spaces, tabs, carriage returns and line feeds. It fails on
/// any other character, on fewer digits and on more; its error is written
/// out by its `Display`, and these words are named, not stated:
/// `address_refusal`.
#[verifier::external_body]
fn read_address(text: &str) -> (r: Result<[u8; 20], String>)
    ensures
        r is Ok <==> is_address_text(text@),
        r matches Ok(bytes) ==> bytes@ == hex_bytes(address_digits(text@)),
        r matches Err(reason) ==> reason@ == address_refusal(text@),
{
    match text.parse::<ethabi::Address>() {
        Ok(address) => Ok(address.0),
        Err(e) => Err(e.to_string()),
    }
}

impl Address {
    /// Reads an address from text.
    pub fn parse(text: &str) -> (r: Result<Address, InvalidAddress>)
        ensures
            r is Ok <==> is_address_text(text@),
            r matches Ok(address) ==> address@ == hex_bytes(address_digits(text@)),
            r matches Err(e) ==> e.reason@ == address_refusal(text@),
    {
        match read_address(text) {
            Ok(bytes) => Ok(Address { bytes }),
            Err(reason) => Err(InvalidAddress { reason }),
        }
    }

    /// Writes the address as its canonical text.
    pub fn to_text(&self) -> (r: String)
        ensures
            r@ == address_text(self@),
    {
        to_marked_hex(self.bytes.as_slice())
    }
}

/// A text of which no character is passed over is read whole.
proof fn lemma_all_kept(s: Seq<char>)
    requires
        forall|i: int| 0 <= i < s.len() ==> !is_skipped(#[trigger] s[i]),
    ensures
        s.filter(is_kept()) == s,
    decreases s.len(),
{
    reveal(Seq::filter);
    if s.len() > 0 {
        lemma_all_kept(s.drop_last());
    }
}

/// The canonical text of an address is read back as this address.
pub proof fn lemma_address_text_reads_back(address: Seq<u8>)
    requires
        address.len() == 20,
    ensures
        is_address_text(address_text(address)),
        hex_bytes(address_digits(address_text(address))) == address,
{
    let digits = hex_text(address);
    lemma_hex_text_reads_back(address);
    assert(without_marker(address_text(address)) =~= digits);
    assert forall|i: int| 0 <= i < digits.len() implies !is_skipped(#[trigger] digits[i]) by {
        assert(hex_digit_value(digits[i]) is Some);
    }
    lemma_all_kept(digits);
}

} // verus!
