//! The index enumerator: which derivation indices a run processes.
//!
//! Two policies exist. The sequential policy walks from an offset with a
//! constant stride; the random policy samples without replacement from a range
//! and sorts the sample. Either way the indices come out strictly increasing.

use crate::random::shuffle_indices;
use rand_chacha::ChaCha20Rng;
use vstd::prelude::*;

verus! {

/// Why an enumeration was refused.
#[derive(Debug, Clone, Copy, PartialEq, Eq)]
pub enum EnumerateError {
    /// The requested range ends beyond the largest index, `u32::MAX`.
    RangeOverflow,
}

/// Every element is smaller than all elements after it.
pub open spec fn strictly_increasing(s: Seq<u32>) -> bool {
    forall|i: int, j: int| 0 <= i < j < s.len() ==> s[i] < s[j]
}

/// No element is larger than an element after it.
pub open spec fn ascending(s: Seq<u32>) -> bool {
    forall|i: int, j: int| 0 <= i < j < s.len() ==> s[i] <= s[j]
}

/// The distance between two neighbouring indices of the sequential policy.
pub open spec fn stride(skip: usize) -> int {
    skip + 1
}

/// The `i`-th index of the sequential policy.
pub open spec fn sequential_index(offset: u32, skip: usize, i: int) -> int {
    offset + i * stride(skip)
}

/// The exclusive upper end of the range that the sequential policy covers.
pub open spec fn sequential_end(offset: u32, count: u32, skip: usize) -> int {
    offset + count * stride(skip)
}

/// The upper bound that the random policy samples below: the given height,
/// raised to `offset + count` where it is smaller, so that the requested count
/// can always be served.
pub open spec fn effective_height(offset: u32, count: u32, height: u32) -> int {
    if height < offset + count {
        offset + count
    } else {
        height as int
    }
}

proof fn lemma_stride_step(offset: int, i: int, step: int)
    ensures
        offset + (i + 1) * step == offset + i * step + step,
{
    assert((i + 1) * step == i * step + step) by (nonlinear_arith);
}

proof fn lemma_stride_monotone(i: int, j: int, step: int)
    requires
        0 <= i <= j,
        0 <= step,
    ensures
        i * step <= j * step,
{
    assert(i * step <= j * step) by (nonlinear_arith)
        requires
            0 <= i <= j,
            0 <= step,
    ;
}

/// Sequential policy: `count` indices that start at `offset` and lie
/// `skip + 1` apart.
///
/// The range `[offset, offset + count * (skip + 1))` has to end at or below
/// `u32::MAX`; otherwise nothing is enumerated and `RangeOverflow` comes back.
pub fn enumerate_sequential(offset: u32, count: u32, skip: usize) -> (r: Result<
    Vec<u32>,
    EnumerateError,
>)
    ensures
        r is Ok <==> sequential_end(offset, count, skip) <= u32::MAX,
        r matches Ok(v) ==> v@.len() == count,
        r matches Ok(v) ==> forall|i: int|
            0 <= i < count ==> #[trigger] v@[i] == sequential_index(offset, skip, i),
        r matches Ok(v) ==> strictly_increasing(v@),
        r matches Ok(v) ==> forall|i: int|
            0 <= i < count ==> offset <= #[trigger] v@[i] < sequential_end(offset, count, skip),
        r matches Err(e) ==> e == EnumerateError::RangeOverflow,
{
    let mut indices: Vec<u32> = Vec::new();
    if count == 0 {
        return Ok(indices);
    }
    if skip >= 0xffff_ffff {
        proof {
            lemma_stride_monotone(1, count as int, stride(skip));
        }
        return Err(EnumerateError::RangeOverflow);
    }
    let step: u64 = skip as u64 + 1;
    assert(count as u64 * step <= 0xffff_ffff * 0xffff_ffff) by (nonlinear_arith)
        requires
            count <= 0xffff_ffff,
            step <= 0xffff_ffff,
    ;
    let end: u64 = offset as u64 + count as u64 * step;
    if end > 0xffff_ffff {
        return Err(EnumerateError::RangeOverflow);
    }
    let mut next: u64 = offset as u64;
    let mut i: u32 = 0;
    while i < count
        invariant
            0 <= i <= count,
            step == stride(skip),
            1 <= step,
            end == sequential_end(offset, count, skip),
            end <= u32::MAX,
            next == sequential_index(offset, skip, i as int),
            indices@.len() == i,
            forall|k: int| 0 <= k < i ==> #[trigger] indices@[k] == sequential_index(offset, skip, k),
        decreases count - i,
    {
        proof {
            lemma_stride_monotone(i as int + 1, count as int, step as int);
            lemma_stride_step(offset as int, i as int, step as int);
        }
        indices.push(next as u32);
        next = next + step;
        i = i + 1;
    }
    proof {
        assert forall|a: int, b: int| 0 <= a < b < indices@.len() implies indices@[a]
            < indices@[b] by {
            lemma_stride_monotone(a + 1, b, step as int);
            lemma_stride_step(offset as int, a, step as int);
        }
        assert forall|a: int| 0 <= a < indices@.len() implies offset <= #[trigger] indices@[a]
            < sequential_end(offset, count, skip) by {
            lemma_stride_monotone(0, a, step as int);
            lemma_stride_monotone(a + 1, count as int, step as int);
            lemma_stride_step(offset as int, a, step as int);
        }
    }
    Ok(indices)
}

/// Calls the standard library's `sort` on the vector's slice.
///
/// The standard library documents that the slice ends up in ascending order
/// and that sorting only rearranges it.
#[verifier::external_body]
fn sort_ascending(indices: &mut Vec<u32>)
    ensures
        ascending(final(indices)@),
        final(indices)@.to_multiset() == old(indices)@.to_multiset(),
{
    indices.sort();
}

/// The indices `lo, lo + 1, ..` below `hi`, in this order.
pub fn range_indices(lo: u32, hi: u32) -> (v: Vec<u32>)
    ensures
        v@.len() == if lo <= hi {
            hi - lo
        } else {
            0
        },
        forall|k: int| 0 <= k < v@.len() ==> #[trigger] v@[k] == lo + k,
{
    let mut v: Vec<u32> = Vec::new();
    let mut next: u32 = lo;
    while next < hi
        invariant
            lo <= next,
            next <= hi || next == lo,
            v@.len() == next - lo,
            forall|k: int| 0 <= k < v@.len() ==> #[trigger] v@[k] == lo + k,
        decreases hi - next,
    {
        v.push(next);
        next = next + 1;
    }
    v
}

/// The number of elements that a sample of `count` takes from `len` candidates.
pub open spec fn sample_len(count: u32, len: nat) -> int {
    if count <= len {
        count as int
    } else {
        len as int
    }
}

/// Keeps the first `count` elements of a shuffled vector and puts them in
/// ascending order: the selection is what the shuffle made it, the order in
/// which the sample is processed is not.
///
/// The result is the one ascending arrangement of the first
/// `sample_len(count, shuffled.len())` elements of `shuffled`.
pub fn sample_sorted(shuffled: Vec<u32>, count: u32) -> (sample: Vec<u32>)
    ensures
        ascending(sample@),
        sample@.to_multiset() == shuffled@.take(
            sample_len(count, shuffled@.len()),
        ).to_multiset(),
{
    let mut sample = shuffled;
    sample.truncate(count as usize);
    assert(sample@ =~= shuffled@.take(sample_len(count, shuffled@.len())));
    sort_ascending(&mut sample);
    sample
}

/// A sequence without duplicates holds the same elements as any rearrangement
/// of it, and that rearrangement has no duplicates either.
proof fn lemma_rearranged_no_duplicates(a: Seq<u32>, b: Seq<u32>)
    requires
        a.no_duplicates(),
        a.to_multiset() == b.to_multiset(),
    ensures
        b.no_duplicates(),
        a.len() == b.len(),
        forall|x: u32| a.contains(x) <==> b.contains(x),
{
    broadcast use vstd::seq_lib::group_to_multiset_ensures;

    a.lemma_multiset_has_no_duplicates();
    b.lemma_multiset_has_no_duplicates_conv();
    vstd::seq_lib::to_multiset_len(a);
    vstd::seq_lib::to_multiset_len(b);
    assert forall|x: u32| a.contains(x) <==> b.contains(x) by {
        assert(a.contains(x) <==> a.to_multiset().count(x) > 0);
        assert(b.contains(x) <==> b.to_multiset().count(x) > 0);
    }
}

/// An ascending sequence without duplicates is strictly increasing.
proof fn lemma_ascending_distinct(s: Seq<u32>)
    requires
        ascending(s),
        s.no_duplicates(),
    ensures
        strictly_increasing(s),
{
}

/// Random policy: a sample of `count` distinct indices from
/// `[offset, effective_height(offset, count, height))`, in ascending order.
///
/// Which indices are drawn depends on the generator; the length, the order and
/// the bounds do not. `offset + count` has to be at most `u32::MAX`; otherwise
/// nothing is drawn and `RangeOverflow` comes back.
pub fn enumerate_random(offset: u32, count: u32, height: u32, rng: &mut ChaCha20Rng) -> (r:
    Result<Vec<u32>, EnumerateError>)
    ensures
        r is Ok <==> offset + count <= u32::MAX,
        r matches Ok(v) ==> v@.len() == count,
        r matches Ok(v) ==> v@.len() == sample_len(
            count,
            (effective_height(offset, count, height) - offset) as nat,
        ),
        r matches Ok(v) ==> strictly_increasing(v@),
        r matches Ok(v) ==> forall|i: int|
            0 <= i < v@.len() ==> offset <= #[trigger] v@[i] < effective_height(
                offset,
                count,
                height,
            ),
        r matches Err(e) ==> e == EnumerateError::RangeOverflow,
{
    if count > 0xffff_ffff - offset {
        return Err(EnumerateError::RangeOverflow);
    }
    let least: u32 = offset + count;
    let top: u32 = if height < least {
        least
    } else {
        height
    };
    let mut candidates = range_indices(offset, top);
    let ghost ordered = candidates@;
    shuffle_indices(&mut candidates, rng);
    let ghost shuffled = candidates@;
    let sample = sample_sorted(candidates, count);
    proof {
        let taken = shuffled.take(count as int);
        assert(ordered.no_duplicates());
        lemma_rearranged_no_duplicates(ordered, shuffled);
        assert(taken.no_duplicates());
        lemma_rearranged_no_duplicates(taken, sample@);
        lemma_ascending_distinct(sample@);
        assert forall|i: int| 0 <= i < sample@.len() implies offset <= #[trigger] sample@[i]
            < top by {
            let x = sample@[i];
            assert(sample@.contains(x));
            assert(taken.contains(x));
            let k = choose|k: int| 0 <= k < taken.len() && taken[k] == x;
            assert(shuffled[k] == x);
            assert(shuffled.contains(x));
            assert(ordered.contains(x));
            let m = choose|m: int| 0 <= m < ordered.len() && ordered[m] == x;
            assert(ordered[m] == offset + m);
        }
    }
    Ok(sample)
}

/// The indices to process, under the policy that `random` selects.
///
/// With `random` unset this is the sequential policy with `skip`, and `height`
/// is ignored; with `random` set it is the random policy with `height`, and
/// `skip` is ignored.
pub fn enumerate(
    offset: u32,
    count: u32,
    skip: usize,
    random: bool,
    height: u32,
    rng: &mut ChaCha20Rng,
) -> (r: Result<Vec<u32>, EnumerateError>)
    ensures
        !random ==> (r is Ok <==> sequential_end(offset, count, skip) <= u32::MAX),
        !random ==> (r matches Ok(v) ==> forall|i: int|
            0 <= i < count ==> #[trigger] v@[i] == sequential_index(offset, skip, i)),
        random ==> (r is Ok <==> offset + count <= u32::MAX),
        random ==> (r matches Ok(v) ==> forall|i: int|
            0 <= i < v@.len() ==> offset <= #[trigger] v@[i] < effective_height(
                offset,
                count,
                height,
            )),
        r matches Ok(v) ==> v@.len() == count,
        r matches Ok(v) ==> strictly_increasing(v@),
        r matches Err(e) ==> e == EnumerateError::RangeOverflow,
{
    if random {
        enumerate_random(offset, count, height, rng)
    } else {
        enumerate_sequential(offset, count, skip)
    }
}

} // verus!
