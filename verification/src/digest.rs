//! The 128-bit digest and its three renderings: unsigned integer,
//! little-endian bytes and lowercase hexadecimal text.

use crate::encoding::{
    decimal, decimal_text, encode, hex_bytes, hex_text, is_hex_text, lemma_hex_round_trip,
};
use vstd::bytes::{
    lemma_auto_spec_u128_to_from_le_bytes, spec_u128_from_le_bytes, spec_u128_to_le_bytes,
    u128_to_le_bytes,
};
use vstd::prelude::*;

verus! {

/// A 128-bit digest. Two digests are equal exactly when their values are.
#[derive(Clone, Copy, Debug, PartialEq, Eq, Structural)]
pub struct Hash {
    value: u128,
}

impl View for Hash {
    type V = u128;

    closed spec fn view(&self) -> u128 {
        self.value
    }
}

impl Hash {
    /// The sixteen bytes of the digest, least significant first.
    pub open spec fn bytes(self) -> Seq<u8> {
        spec_u128_to_le_bytes(self@)
    }

    /// Wraps a 128-bit value as a digest.
    pub fn new(value: u128) -> (hash: Hash)
        ensures
            hash@ == value,
    {
        Hash { value }
    }

    /// The digest as an unsigned integer.
    pub fn to_u128(&self) -> (value: u128)
        ensures
            value == self@,
    {
        self.value
    }

    /// The digest as sixteen bytes, least significant first.
    pub fn digest(&self) -> (bytes: Vec<u8>)
        ensures
            bytes@ == self.bytes(),
            bytes@.len() == 16,
    {
        u128_to_le_bytes(self.value)
    }

    /// The digest as 32 lowercase hexadecimal digits: the text of its
    /// sixteen bytes, least significant byte first.
    pub fn hexdigest(&self) -> (text: String)
        ensures
            text@ == hex_text(self.bytes()),
            text@.len() == 32,
    {
        let bytes: Vec<u8> = self.digest();
        encode(bytes.as_slice())
    }

    /// The digest as it is shown to a reader: its value in decimal, labelled.
    pub fn repr(&self) -> (text: String)
        ensures
            text@ == "Hash(value="@ + decimal_text(self@ as nat) + ")"@,
    {
        let mut text: String = String::from_str("Hash(value=");
        let number: String = decimal(self.value);
        text.append(number.as_str());
        text.append(")");
        text
    }

    /// Digests are equal exactly when their 128-bit values are equal.
    pub proof fn lemma_equal_iff_same_value(a: Hash, b: Hash)
        ensures
            (a == b) <==> (a@ == b@),
    {
    }

    /// Digests are equal exactly when their sixteen bytes are equal.
    pub proof fn lemma_equal_iff_same_bytes(a: Hash, b: Hash)
        ensures
            (a == b) <==> (a.bytes() == b.bytes()),
    {
        lemma_auto_spec_u128_to_from_le_bytes();
        assert(a.bytes().len() == 16 && spec_u128_from_le_bytes(a.bytes()) == a@);
        assert(b.bytes().len() == 16 && spec_u128_from_le_bytes(b.bytes()) == b@);
    }
}

/// The hexadecimal and the byte renderings of a digest are inverse to each
/// other: reading the text back gives the sixteen bytes, and so the value.
pub proof fn lemma_hex_and_bytes_inverse(hash: Hash)
    ensures
        is_hex_text(hex_text(hash.bytes())),
        hex_bytes(hex_text(hash.bytes())) == hash.bytes(),
        spec_u128_from_le_bytes(hex_bytes(hex_text(hash.bytes()))) == hash@,
{
    lemma_hex_round_trip(hash.bytes());
    lemma_auto_spec_u128_to_from_le_bytes();
    assert(hash.bytes().len() == 16 && spec_u128_from_le_bytes(hash.bytes()) == hash@);
}

} // verus!
