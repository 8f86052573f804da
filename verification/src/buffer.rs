//! Fixed-shape, fully initialized buffers of 32-bit integers, one type per
//! alignment tier. A buffer is created filled, keeps its length for its whole
//! lifetime, and is a move-only owner of its storage, so the storage is
//! released exactly once, when the handle is dropped.

use vstd::pervasive::VecAdditionalExecFns;
use vstd::prelude::*;

verus! {

/// Buffer of 32-bit integers for the 128-bit vector tier, whose loads and
/// stores ask for a 16-byte-aligned base address.
pub struct AlignedVec16 {
    data: Vec<i32>,
}

impl View for AlignedVec16 {
    type V = Seq<i32>;

    closed spec fn view(&self) -> Seq<i32> {
        self.data@
    }
}

impl AlignedVec16 {
    /// Alignment in bytes that this tier requires of a buffer's base address.
    pub fn alignment() -> (a: usize)
        ensures
            a == 16,
    {
        16
    }

    /// Number of 32-bit lanes in one vector of this tier.
    pub fn lanes() -> (w: usize)
        ensures
            w == 4,
    {
        4
    }

    /// Allocates a buffer of `size` elements, every slot set to `value`.
    pub fn new_from_value(size: usize, value: i32) -> (r: Self)
        ensures
            r@.len() == size,
            forall|i: int| 0 <= i < size ==> r@[i] == value,
    {
        let mut data: Vec<i32> = Vec::with_capacity(size);
        let mut i: usize = 0;
        while i < size
            invariant
                i <= size,
                data@.len() == i,
                forall|j: int| 0 <= j < i ==> data@[j] == value,
            decreases size - i,
        {
            data.push(value);
            i = i + 1;
        }
        AlignedVec16 { data }
    }

    /// Number of elements the buffer holds; fixed at construction.
    pub fn len(&self) -> (n: usize)
        ensures
            n == self@.len(),
    {
        self.data.len()
    }

    /// Reads the element in slot `i`.
    pub fn get(&self, i: usize) -> (v: i32)
        requires
            i < self@.len(),
        ensures
            v == self@[i as int],
    {
        self.data[i]
    }

    /// Overwrites the element in slot `i`; the buffer's shape is unchanged.
    pub fn set_at(&mut self, i: usize, v: i32)
        requires
            i < old(self)@.len(),
        ensures
            final(self)@ == old(self)@.update(i as int, v),
    {
        self.data.set(i, v);
    }
}

/// Buffer of 32-bit integers for the 256-bit vector tier, whose loads and
/// stores ask for a 32-byte-aligned base address.
pub struct AlignedVec32 {
    data: Vec<i32>,
}

impl View for AlignedVec32 {
    type V = Seq<i32>;

    closed spec fn view(&self) -> Seq<i32> {
        self.data@
    }
}

impl AlignedVec32 {
    /// Alignment in bytes that this tier requires of a buffer's base address.
    pub fn alignment() -> (a: usize)
        ensures
            a == 32,
    {
        32
    }

    /// Number of 32-bit lanes in one vector of this tier.
    pub fn lanes() -> (w: usize)
        ensures
            w == 8,
    {
        8
    }

    /// Allocates a buffer of `size` elements, every slot set to `value`.
    pub fn new_from_value(size: usize, value: i32) -> (r: Self)
        ensures
            r@.len() == size,
            forall|i: int| 0 <= i < size ==> r@[i] == value,
    {
        let mut data: Vec<i32> = Vec::with_capacity(size);
        let mut i: usize = 0;
        while i < size
            invariant
                i <= size,
                data@.len() == i,
                forall|j: int| 0 <= j < i ==> data@[j] == value,
            decreases size - i,
        {
            data.push(value);
            i = i + 1;
        }
        AlignedVec32 { data }
    }

    /// Number of elements the buffer holds; fixed at construction.
    pub fn len(&self) -> (n: usize)
        ensures
            n == self@.len(),
    {
        self.data.len()
    }

    /// Reads the element in slot `i`.
    pub fn get(&self, i: usize) -> (v: i32)
        requires
            i < self@.len(),
        ensures
            v == self@[i as int],
    {
        self.data[i]
    }

    /// Overwrites the element in slot `i`; the buffer's shape is unchanged.
    pub fn set_at(&mut self, i: usize, v: i32)
        requires
            i < old(self)@.len(),
        ensures
            final(self)@ == old(self)@.update(i as int, v),
    {
        self.data.set(i, v);
    }
}

} // verus!
