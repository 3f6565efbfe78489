//! The variable-length encoding of an input's length that opens every digest,
//! and the facts about it that make digests of different lengths differ.

use vstd::prelude::*;

verus! {

/// The variable-length encoding of `x`: seven bits to a byte, least
/// significant group first, the top bit set on every byte but the last.
pub open spec fn uvarint(x: nat) -> Seq<u8>
    decreases x,
{
    if x < 128 {
        seq![x as u8]
    } else {
        seq![(x % 128 + 128) as u8] + uvarint(x / 128)
    }
}

/// `digest` with its leading bytes replaced by the encoding of `len`.
pub open spec fn with_length(digest: Seq<u8>, len: nat) -> Seq<u8> {
    uvarint(len) + digest.skip(uvarint(len).len() as int)
}

/// One more than the largest value that `groups` bytes can encode.
pub open spec fn limit(groups: nat) -> nat
    decreases groups,
{
    if groups == 0 {
        1
    } else {
        128 * limit((groups - 1) as nat)
    }
}

/// An encoding is never empty, and a value below `limit(groups)` takes at
/// most `groups` bytes.
pub proof fn lemma_uvarint_len(x: nat, groups: nat)
    requires
        groups >= 1,
        x < limit(groups),
    ensures
        1 <= uvarint(x).len() <= groups,
    decreases groups,
{
    reveal_with_fuel(limit, 2);
    if x >= 128 {
        let rest: nat = (groups - 1) as nat;
        lemma_uvarint_len(x / 128, rest);
    }
}

/// The length of anything that fits in 64 bits is encoded in at most ten
/// bytes.
pub proof fn lemma_uvarint_len_u64(x: nat)
    requires
        x <= u64::MAX,
    ensures
        1 <= uvarint(x).len() <= 10,
{
    reveal_with_fuel(limit, 11);
    lemma_uvarint_len(x, 10);
}

/// No encoding is the beginning of another: two byte strings that agree and
/// each begin with an encoding begin with the encoding of the same number.
pub proof fn lemma_uvarint_prefix_free(a: nat, b: nat, after_a: Seq<u8>, after_b: Seq<u8>)
    requires
        uvarint(a) + after_a == uvarint(b) + after_b,
    ensures
        a == b,
    decreases a,
{
    let left: Seq<u8> = uvarint(a) + after_a;
    let right: Seq<u8> = uvarint(b) + after_b;
    assert(left[0] == uvarint(a)[0] && right[0] == uvarint(b)[0]);
    if a >= 128 && b >= 128 {
        assert(left.drop_first() =~= uvarint(a / 128) + after_a);
        assert(right.drop_first() =~= uvarint(b / 128) + after_b);
        lemma_uvarint_prefix_free(a / 128, b / 128, after_a, after_b);
    }
}

/// Two sixteen-byte digests stamped with different lengths differ.
pub proof fn lemma_with_length_tells_apart(d1: Seq<u8>, len1: nat, d2: Seq<u8>, len2: nat)
    requires
        len1 != len2,
    ensures
        with_length(d1, len1) != with_length(d2, len2),
{
    if with_length(d1, len1) == with_length(d2, len2) {
        lemma_uvarint_prefix_free(
            len1,
            len2,
            d1.skip(uvarint(len1).len() as int),
            d2.skip(uvarint(len2).len() as int),
        );
    }
}

/// Stamping a length on sixteen bytes leaves sixteen bytes.
pub proof fn lemma_with_length_len(digest: Seq<u8>, len: nat)
    requires
        digest.len() == 16,
        len <= u64::MAX,
    ensures
        with_length(digest, len).len() == 16,
{
    lemma_uvarint_len_u64(len);
}

} // verus!
