//! The hasher: a sampling configuration, and the digest it gives to a buffer.
//!
//! A digest is the mixing of the sampled bytes with the input's length
//! written over its leading bytes, so that inputs of different lengths never
//! share a digest.

use crate::encoding::{decimal, decimal_text};
use crate::sampling::{is_read, lemma_sampled_ignores_gaps, sampled};
use crate::varint::{lemma_with_length_len, lemma_with_length_tells_apart, with_length};
use vstd::bytes::{
    lemma_auto_spec_u128_to_from_le_bytes, spec_u128_from_le_bytes, spec_u128_to_le_bytes,
};
use vstd::prelude::*;

verus! {

/// Input length, in bytes, from which on an input is sampled by default.
pub const SAMPLE_THRESHOLD: u32 = 128 * 1024;

/// Size, in bytes, of each sampled window by default.
pub const SAMPLE_SIZE: u32 = 16 * 1024;

/// The 128 bits that `imohash` holds after mixing the bytes it has read and
/// before it writes the length over them: `murmur3_x64_128` of those bytes
/// with seed 0, its two 64-bit halves exchanged and its sixteen bytes
/// reversed.
pub uninterp spec fn mixed(read: Seq<u8>) -> u128;

/// The digest of `data` under a window size and a threshold: the mixing of
/// the sampled bytes, the length of the whole of `data` written over the
/// leading bytes of its little-endian form.
pub open spec fn sampled_digest(size: nat, threshold: nat, data: Seq<u8>) -> u128 {
    spec_u128_from_le_bytes(
        with_length(spec_u128_to_le_bytes(mixed(sampled(size, threshold, data))), data.len()),
    )
}

/// Whether four windows of `size` bytes can be counted in 32 bits, wherever
/// an input of `len` bytes makes the hasher count them.
pub open spec fn windows_countable(size: nat, threshold: nat, len: nat) -> bool {
    size >= 1 && len >= threshold ==> 4 * size <= u32::MAX
}

/// Calls `imohash::Hasher::sum` on a hasher made by
/// `imohash::Hasher::with_sample_size_and_threshold`.
///
/// Trusted: the result is the little-endian reading of sixteen bytes, which
/// are the mixing of the bytes read (all of `data`, or its three windows)
/// with the variable-length encoding of `data.len()` written over their
/// beginning. `sum` reads from a cursor over `data` and never past its end,
/// so it does not fail. It multiplies the window size by four in 32 bits
/// once the size is positive and the input has reached the threshold, which
/// the precondition keeps from overflowing.
#[verifier::external_body]
fn sum(sample_size: u32, sample_threshold: u32, data: &[u8]) -> (value: u128)
    requires
        windows_countable(sample_size as nat, sample_threshold as nat, data@.len()),
    ensures
        value == spec_u128_from_le_bytes(
            with_length(
                spec_u128_to_le_bytes(
                    mixed(sampled(sample_size as nat, sample_threshold as nat, data@)),
                ),
                data@.len(),
            ),
        ),
{
    imohash::Hasher::with_sample_size_and_threshold(sample_size, sample_threshold).sum(
        data,
    ).unwrap()
}

/// A hasher: a window size and a threshold, fixed when it is made.
#[derive(Clone, Copy, Debug)]
pub struct Imohash {
    sample_size: u32,
    sample_threshold: u32,
}

impl Imohash {
    /// The size of each sampled window, in bytes.
    pub closed spec fn size(&self) -> nat {
        self.sample_size as nat
    }

    /// The input length from which on inputs are sampled.
    pub closed spec fn threshold(&self) -> nat {
        self.sample_threshold as nat
    }

    /// The digest that this hasher gives to `data`.
    pub open spec fn digest_of(&self, data: Seq<u8>) -> u128 {
        sampled_digest(self.size(), self.threshold(), data)
    }

    /// Whether this hasher can take an input of `len` bytes.
    pub open spec fn accepts(&self, len: nat) -> bool {
        windows_countable(self.size(), self.threshold(), len)
    }

    /// A hasher with the given threshold and window size, each replaced by
    /// its default where it is absent.
    pub fn new(sample_threshold: Option<u32>, sample_size: Option<u32>) -> (hasher: Imohash)
        ensures
            hasher.threshold() == match sample_threshold {
                Some(threshold) => threshold,
                None => SAMPLE_THRESHOLD,
            },
            hasher.size() == match sample_size {
                Some(size) => size,
                None => SAMPLE_SIZE,
            },
    {
        let sample_threshold: u32 = match sample_threshold {
            Some(threshold) => threshold,
            None => SAMPLE_THRESHOLD,
        };
        let sample_size: u32 = match sample_size {
            Some(size) => size,
            None => SAMPLE_SIZE,
        };
        Imohash { sample_size, sample_threshold }
    }

    /// The size of each sampled window, in bytes.
    pub fn sample_size(&self) -> (size: u32)
        ensures
            size == self.size(),
    {
        self.sample_size
    }

    /// The input length from which on inputs are sampled.
    pub fn sample_threshold(&self) -> (threshold: u32)
        ensures
            threshold == self.threshold(),
    {
        self.sample_threshold
    }

    /// Whether this hasher can take an input of `len` bytes.
    pub fn can_hash(&self, len: u64) -> (ok: bool)
        ensures
            ok == self.accepts(len as nat),
    {
        !(self.sample_size >= 1 && len >= self.sample_threshold as u64) || self.sample_size
            <= u32::MAX / 4
    }

    /// The hasher as it is shown to a reader: its two settings in decimal,
    /// labelled.
    pub fn repr(&self) -> (text: String)
        ensures
            text@ == "Imohash(sample_size="@ + decimal_text(self.size()) + ", sample_threshold="@
                + decimal_text(self.threshold()) + ")"@,
    {
        let mut text: String = String::from_str("Imohash(sample_size=");
        let size: String = decimal(self.sample_size as u128);
        text.append(size.as_str());
        text.append(", sample_threshold=");
        let threshold: String = decimal(self.sample_threshold as u128);
        text.append(threshold.as_str());
        text.append(")");
        text
    }

    /// The digest of a buffer.
    pub fn get(&self, data: &[u8]) -> (hash: crate::digest::Hash)
        requires
            self.accepts(data@.len()),
        ensures
            hash@ == self.digest_of(data@),
    {
        crate::digest::Hash::new(sum(self.sample_size, self.sample_threshold, data))
    }
}

/// The digest of an input that is read whole: a function of its bytes alone.
pub open spec fn whole_digest(data: Seq<u8>) -> u128 {
    spec_u128_from_le_bytes(with_length(spec_u128_to_le_bytes(mixed(data)), data.len()))
}

/// The sixteen bytes of a digest open with the encoding of the input's
/// length; the bytes after it are those of the mixing, untouched.
pub proof fn lemma_digest_bytes(hasher: Imohash, data: Seq<u8>)
    requires
        data.len() <= u64::MAX,
    ensures
        spec_u128_to_le_bytes(hasher.digest_of(data)) == with_length(
            spec_u128_to_le_bytes(mixed(sampled(hasher.size(), hasher.threshold(), data))),
            data.len(),
        ),
{
    let raw: Seq<u8> = spec_u128_to_le_bytes(
        mixed(sampled(hasher.size(), hasher.threshold(), data)),
    );
    lemma_auto_spec_u128_to_from_le_bytes();
    lemma_with_length_len(raw, data.len());
}

/// An input shorter than the threshold is digested whole: its digest is a
/// function of its bytes alone, the same under every window size and every
/// threshold above its length.
pub proof fn lemma_short_input_digested_whole(hasher: Imohash, data: Seq<u8>)
    requires
        data.len() < hasher.threshold(),
    ensures
        hasher.digest_of(data) == whole_digest(data),
{
}

/// So is an input under a window size of zero, and one shorter than four
/// windows.
pub proof fn lemma_unsampled_input_digested_whole(hasher: Imohash, data: Seq<u8>)
    requires
        hasher.size() == 0 || data.len() < 4 * hasher.size(),
    ensures
        hasher.digest_of(data) == whole_digest(data),
{
}

/// The empty input has one digest, under every configuration, and its first
/// byte is zero.
pub proof fn lemma_empty_input_digest(hasher: Imohash)
    ensures
        hasher.digest_of(Seq::empty()) == whole_digest(Seq::empty()),
        spec_u128_to_le_bytes(whole_digest(Seq::empty()))[0] == 0,
{
    lemma_digest_bytes(hasher, Seq::empty());
}

/// Inputs of one length that agree on every byte that is read have the same
/// digest: changing a byte between the windows changes nothing.
pub proof fn lemma_digest_ignores_gaps(hasher: Imohash, a: Seq<u8>, b: Seq<u8>)
    requires
        a.len() == b.len(),
        forall|i: int| is_read(hasher.size(), hasher.threshold(), a.len(), i) ==> a[i] == b[i],
    ensures
        hasher.digest_of(a) == hasher.digest_of(b),
{
    lemma_sampled_ignores_gaps(hasher.size(), hasher.threshold(), a, b);
}

/// Inputs of different lengths have different digests, whatever their bytes
/// and whichever hasher took each.
pub proof fn lemma_lengths_tell_apart(
    hasher_a: Imohash,
    a: Seq<u8>,
    hasher_b: Imohash,
    b: Seq<u8>,
)
    requires
        a.len() != b.len(),
        a.len() <= u64::MAX,
        b.len() <= u64::MAX,
    ensures
        hasher_a.digest_of(a) != hasher_b.digest_of(b),
{
    lemma_digest_bytes(hasher_a, a);
    lemma_digest_bytes(hasher_b, b);
    lemma_with_length_tells_apart(
        spec_u128_to_le_bytes(mixed(sampled(hasher_a.size(), hasher_a.threshold(), a))),
        a.len(),
        spec_u128_to_le_bytes(mixed(sampled(hasher_b.size(), hasher_b.threshold(), b))),
        b.len(),
    );
}

} // verus!
