//! Chunked element-wise addition kernels, one per alignment tier.
//!
//! Each kernel walks the bulk of its operands one whole vector chunk at a
//! time (four 32-bit lanes on the 128-bit tier, eight on the 256-bit tier)
//! and then finishes the leftover tail element by element. Lane addition
//! wraps around, as 32-bit two's-complement hardware addition does.

use crate::buffer::AlignedVec16;
use crate::buffer::AlignedVec32;
use vstd::prelude::*;

verus! {

/// Sum of two 32-bit lanes with two's-complement wraparound.
pub open spec fn add_wrap(x: i32, y: i32) -> i32 {
    vstd::wrapping::i32_specs::wrapping_add(x, y)
}

/// The element-wise wrapping sum of two sequences of equal length.
pub open spec fn wrap_sum_seq(a: Seq<i32>, b: Seq<i32>) -> Seq<i32> {
    Seq::new(a.len(), |i: int| add_wrap(a[i], b[i]))
}

/// Number of whole vector chunks in a buffer of `len` elements, at `width`
/// lanes per vector.
pub fn chunk_count(len: usize, width: usize) -> (c: usize)
    requires
        1 <= width,
    ensures
        c == len as int / width as int,
{
    len / width
}

/// Number of tail elements left over once the whole chunks are taken out.
pub fn tail_len(len: usize, width: usize) -> (t: usize)
    requires
        1 <= width,
    ensures
        t == len as int % width as int,
{
    len % width
}

/// Law: the chunked walk covers every element. The whole chunks and the tail
/// partition a buffer of `len` elements, and the tail is shorter than one
/// vector, so a kernel that sums `len / width` chunks and then `len % width`
/// scalar slots touches each slot exactly once.
pub proof fn lemma_chunks_cover(len: usize, width: usize)
    requires
        1 <= width,
    ensures
        (len as int / width as int) * width as int + len as int % width as int == len as int,
        0 <= len as int % width as int,
        (len as int % width as int) < width as int,
{
    vstd::arithmetic::div_mod::lemma_fundamental_div_mod(len as int, width as int);
}

/// 128-bit tier: writes the element-wise wrapping sum of `a` and `b` into
/// `result`, four lanes per chunk, then a scalar pass over the tail. Only
/// `result` is written; `a` and `b` are borrowed shared and cannot change.
pub fn sum_with_simd_aligned(a: &AlignedVec16, b: &AlignedVec16, result: &mut AlignedVec16)
    requires
        a@.len() == b@.len(),
        a@.len() == old(result)@.len(),
    ensures
        final(result)@ == wrap_sum_seq(a@, b@),
        forall|i: int| 0 <= i < a@.len() ==> final(result)@[i] == add_wrap(a@[i], b@[i]),
{
    let len = a.len();
    let chunks = len / 4;
    let mut i: usize = 0;
    while i < chunks
        invariant
            i <= chunks,
            chunks == len as int / 4,
            len == a@.len(),
            a@.len() == b@.len(),
            result@.len() == len,
            forall|j: int| 0 <= j < i * 4 ==> result@[j] == add_wrap(a@[j], b@[j]),
        decreases chunks - i,
    {
        let base = i * 4;
        let s0 = a.get(base).wrapping_add(b.get(base));
        result.set_at(base, s0);
        let s1 = a.get(base + 1).wrapping_add(b.get(base + 1));
        result.set_at(base + 1, s1);
        let s2 = a.get(base + 2).wrapping_add(b.get(base + 2));
        result.set_at(base + 2, s2);
        let s3 = a.get(base + 3).wrapping_add(b.get(base + 3));
        result.set_at(base + 3, s3);
        i = i + 1;
    }
    let mut k: usize = chunks * 4;
    while k < len
        invariant
            chunks == len as int / 4,
            chunks * 4 <= k <= len,
            len == a@.len(),
            a@.len() == b@.len(),
            result@.len() == len,
            forall|j: int| 0 <= j < k ==> result@[j] == add_wrap(a@[j], b@[j]),
        decreases len - k,
    {
        let s = a.get(k).wrapping_add(b.get(k));
        result.set_at(k, s);
        k = k + 1;
    }
    proof {
        assert(result@ =~= wrap_sum_seq(a@, b@));
    }
}

/// 256-bit tier: writes the element-wise wrapping sum of `a` and `b` into
/// `result`, eight lanes per chunk, then a scalar pass over the tail. Only
/// `result` is written; `a` and `b` are borrowed shared and cannot change.
pub fn sum_with_simd_avx(a: &AlignedVec32, b: &AlignedVec32, result: &mut AlignedVec32)
    requires
        a@.len() == b@.len(),
        a@.len() == old(result)@.len(),
    ensures
        final(result)@ == wrap_sum_seq(a@, b@),
        forall|i: int| 0 <= i < a@.len() ==> final(result)@[i] == add_wrap(a@[i], b@[i]),
{
    let len = a.len();
    let chunks = len / 8;
    let mut i: usize = 0;
    while i < chunks
        invariant
            i <= chunks,
            chunks == len as int / 8,
            len == a@.len(),
            a@.len() == b@.len(),
            result@.len() == len,
            forall|j: int| 0 <= j < i * 8 ==> result@[j] == add_wrap(a@[j], b@[j]),
        decreases chunks - i,
    {
        let base = i * 8;
        let s0 = a.get(base).wrapping_add(b.get(base));
        result.set_at(base, s0);
        let s1 = a.get(base + 1).wrapping_add(b.get(base + 1));
        result.set_at(base + 1, s1);
        let s2 = a.get(base + 2).wrapping_add(b.get(base + 2));
        result.set_at(base + 2, s2);
        let s3 = a.get(base + 3).wrapping_add(b.get(base + 3));
        result.set_at(base + 3, s3);
        let s4 = a.get(base + 4).wrapping_add(b.get(base + 4));
        result.set_at(base + 4, s4);
        let s5 = a.get(base + 5).wrapping_add(b.get(base + 5));
        result.set_at(base + 5, s5);
        let s6 = a.get(base + 6).wrapping_add(b.get(base + 6));
        result.set_at(base + 6, s6);
        let s7 = a.get(base + 7).wrapping_add(b.get(base + 7));
        result.set_at(base + 7, s7);
        i = i + 1;
    }
    let mut k: usize = chunks * 8;
    while k < len
        invariant
            chunks == len as int / 8,
            chunks * 8 <= k <= len,
            len == a@.len(),
            a@.len() == b@.len(),
            result@.len() == len,
            forall|j: int| 0 <= j < k ==> result@[j] == add_wrap(a@[j], b@[j]),
        decreases len - k,
    {
        let s = a.get(k).wrapping_add(b.get(k));
        result.set_at(k, s);
        k = k + 1;
    }
    proof {
        assert(result@ =~= wrap_sum_seq(a@, b@));
    }
}

} // verus!
