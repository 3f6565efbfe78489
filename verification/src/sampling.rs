//! The sampler: which bytes of an input the digest is computed from.
//!
//! Short inputs are read whole. Long ones are read through three windows of
//! equal size: one at the start, one from the middle on, one at the end.

use vstd::prelude::*;

verus! {

/// A byte range of the input: `len` bytes from `offset` on.
#[derive(Clone, Copy, Debug, PartialEq, Eq, Structural)]
pub struct Window {
    pub offset: u64,
    pub len: u64,
}

/// Whether an input of `len` bytes is read through windows rather than whole:
/// the window size is positive, the input has reached the threshold, and it
/// is at least four windows long.
pub open spec fn takes_windows(size: nat, threshold: nat, len: nat) -> bool {
    size >= 1 && len >= threshold && len >= 4 * size
}

/// The bytes of `data` that are read, in the order in which they are read.
pub open spec fn sampled(size: nat, threshold: nat, data: Seq<u8>) -> Seq<u8> {
    let len: int = data.len() as int;
    if takes_windows(size, threshold, data.len()) {
        data.subrange(0, size as int) + data.subrange(len / 2, len / 2 + size) + data.subrange(
            len - size,
            len,
        )
    } else {
        data
    }
}

/// Whether the byte at `index` of an input of `len` bytes is read.
pub open spec fn is_read(size: nat, threshold: nat, len: nat, index: int) -> bool {
    0 <= index < len && (takes_windows(size, threshold, len) ==> {
        ||| index < size
        ||| len / 2 <= index < len / 2 + size
        ||| len - size <= index
    })
}

/// The ranges that are read of an input of `len` bytes, in reading order.
pub open spec fn window_plan(size: nat, threshold: nat, len: nat) -> Seq<Window> {
    if takes_windows(size, threshold, len) {
        seq![
            Window { offset: 0, len: size as u64 },
            Window { offset: (len / 2) as u64, len: size as u64 },
            Window { offset: (len - size) as u64, len: size as u64 },
        ]
    } else {
        seq![Window { offset: 0, len: len as u64 }]
    }
}

/// The bytes of `data` inside the windows of `plan`, one window after the
/// other.
pub open spec fn gather(data: Seq<u8>, plan: Seq<Window>) -> Seq<u8>
    decreases plan.len(),
{
    if plan.len() == 0 {
        Seq::empty()
    } else {
        gather(data, plan.drop_last()) + data.subrange(
            plan.last().offset as int,
            plan.last().offset + plan.last().len,
        )
    }
}

/// Plans the reads for an input of `len` bytes.
pub fn windows(size: u32, threshold: u32, len: u64) -> (plan: Vec<Window>)
    ensures
        plan@ == window_plan(size as nat, threshold as nat, len as nat),
{
    let wide: u64 = size as u64;
    let mut plan: Vec<Window> = Vec::new();
    if size >= 1 && len >= threshold as u64 && len >= 4 * wide {
        plan.push(Window { offset: 0, len: wide });
        plan.push(Window { offset: len / 2, len: wide });
        plan.push(Window { offset: len - wide, len: wide });
    } else {
        plan.push(Window { offset: 0, len });
    }
    plan
}

/// Every window of a plan lies inside the input, and the windows come in
/// ascending order of offset.
pub proof fn lemma_plan_in_bounds(size: nat, threshold: nat, len: nat)
    requires
        len <= u64::MAX,
    ensures
        ({
            let plan: Seq<Window> = window_plan(size, threshold, len);
            &&& 1 <= plan.len() <= 3
            &&& forall|k: int| 0 <= k < plan.len() ==> (#[trigger] plan[k]).offset + plan[k].len <= len
            &&& forall|j: int, k: int|
                0 <= j <= k < plan.len() ==> (#[trigger] plan[j]).offset <= (#[trigger] plan[k]).offset
        }),
{
}

/// The bytes that are read are those inside the planned windows, in the
/// plan's order.
pub proof fn lemma_sampled_is_gathered(size: nat, threshold: nat, data: Seq<u8>)
    requires
        data.len() <= u64::MAX,
    ensures
        sampled(size, threshold, data) == gather(data, window_plan(size, threshold, data.len())),
{
    reveal_with_fuel(gather, 4);
}

/// Inputs of one length that agree on every byte that is read give the same
/// sample: what lies between the windows does not count.
pub proof fn lemma_sampled_ignores_gaps(size: nat, threshold: nat, a: Seq<u8>, b: Seq<u8>)
    requires
        a.len() == b.len(),
        forall|i: int| is_read(size, threshold, a.len(), i) ==> a[i] == b[i],
    ensures
        sampled(size, threshold, a) == sampled(size, threshold, b),
{
}

/// What is read of a long input is three windows long, however long the
/// input; a short input is read to its own length.
pub proof fn lemma_sampled_len(size: nat, threshold: nat, data: Seq<u8>)
    ensures
        sampled(size, threshold, data).len() == if takes_windows(size, threshold, data.len()) {
            3 * size
        } else {
            data.len()
        },
        sampled(size, threshold, data).len() <= data.len(),
{
}

/// Below the threshold the whole input is read, whatever the window size.
pub proof fn lemma_sampled_whole_below_threshold(size: nat, threshold: nat, data: Seq<u8>)
    requires
        data.len() < threshold,
    ensures
        sampled(size, threshold, data) == data,
{
}

} // verus!
