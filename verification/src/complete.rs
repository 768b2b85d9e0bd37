//! The prefix rule of a short scatter/gather completion.
//!
//! A single transfer over an ordered buffer collection fills or drains the
//! buffers strictly in collection order: when the kernel reports fewer bytes
//! than the collection's whole capacity, the report accounts for a prefix of
//! the buffers, and a buffer is touched only once every buffer before it is
//! full. The driver layer applies this rule when it sets per-buffer valid
//! lengths after a completion.

use vstd::prelude::*;

verus! {

/// Cumulative capacity of the first `i` buffers.
pub open spec fn prefix_capacity(caps: Seq<usize>, i: int) -> int
    decreases i,
{
    if i <= 0 {
        0
    } else {
        prefix_capacity(caps, i - 1) + caps[i - 1]
    }
}

/// How many bytes land in buffer `i` when a completion reports `count`
/// bytes in all: the buffer takes what is left of `count` once the buffers
/// before it are full, capped at its own capacity.
pub open spec fn spec_filled(caps: Seq<usize>, count: int, i: int) -> int {
    let lo = prefix_capacity(caps, i);
    let hi = lo + caps[i];
    if count >= hi {
        caps[i] as int
    } else if count >= lo {
        count - lo
    } else {
        0
    }
}

/// Per-buffer valid lengths after a completion that reports `count` bytes
/// over buffers of capacities `caps`, in collection order.
pub fn filled_lengths(caps: &Vec<usize>, count: usize) -> (r: Vec<usize>)
    ensures
        r@.len() == caps@.len(),
        forall|i: int| 0 <= i < caps@.len() ==> r@[i] == spec_filled(caps@, count as int, i),
{
    let n = caps.len();
    let mut r: Vec<usize> = Vec::new();
    let mut rem: usize = count;
    let mut i: usize = 0;
    while i < n
        invariant
            i <= n,
            n == caps@.len(),
            r@.len() == i,
            rem as int == (if count as int >= prefix_capacity(caps@, i as int) {
                count - prefix_capacity(caps@, i as int)
            } else {
                0
            }),
            forall|j: int| 0 <= j < i ==> r@[j] == spec_filled(caps@, count as int, j),
        decreases n - i,
    {
        let c = caps[i];
        let take = if c < rem {
            c
        } else {
            rem
        };
        r.push(take);
        rem = rem - take;
        i = i + 1;
    }
    r
}

/// Each buffer's share of a completion is a byte count it can hold: never
/// negative, never more than its own capacity.
pub proof fn lemma_filled_within_capacity(caps: Seq<usize>, count: int, i: int)
    requires
        0 <= count,
        0 <= i < caps.len(),
    ensures
        0 <= spec_filled(caps, count, i) <= caps[i],
{
}

/// Cumulative capacity only grows along the collection.
pub proof fn lemma_prefix_capacity_monotonic(caps: Seq<usize>, i: int, j: int)
    requires
        0 <= i <= j,
    ensures
        prefix_capacity(caps, i) <= prefix_capacity(caps, j),
    decreases j - i,
{
    if i < j {
        lemma_prefix_capacity_monotonic(caps, i, j - 1);
    }
}

/// A short completion touches a prefix: once some buffer is left short of
/// its capacity, every buffer after it receives nothing at all.
pub proof fn lemma_short_completion_prefix(caps: Seq<usize>, count: int, i: int, j: int)
    requires
        0 <= i < j < caps.len(),
        spec_filled(caps, count, i) < caps[i],
    ensures
        spec_filled(caps, count, j) == 0,
{
    lemma_prefix_capacity_monotonic(caps, i + 1, j);
}

/// Cumulative bytes the first `i` buffers take from a completion.
pub open spec fn filled_sum(caps: Seq<usize>, count: int, i: int) -> int
    decreases i,
{
    if i <= 0 {
        0
    } else {
        filled_sum(caps, count, i - 1) + spec_filled(caps, count, i - 1)
    }
}

/// A completion is accounted for exactly: the per-buffer valid lengths of
/// the first `i` buffers sum to the reported count itself when the count
/// fits their cumulative capacity, and to that cumulative capacity when the
/// report exceeds it.
pub proof fn lemma_filled_sum(caps: Seq<usize>, count: int, i: int)
    requires
        0 <= count,
        0 <= i <= caps.len(),
    ensures
        filled_sum(caps, count, i) == (if count <= prefix_capacity(caps, i) {
            count
        } else {
            prefix_capacity(caps, i)
        }),
    decreases i,
{
    if i > 0 {
        lemma_filled_sum(caps, count, i - 1);
    }
}

} // verus!
