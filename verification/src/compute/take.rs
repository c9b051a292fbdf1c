use vstd::prelude::*;

pub mod generic_binary;

verus! {

/// An unsigned native type usable as a gather index.
pub trait Index: Copy + Sized {
    /// The index as a mathematical integer.
    spec fn index_int(self) -> int;

    proof fn index_nonneg(self)
        ensures
            0 <= self.index_int(),
    ;

    /// The index as a usize, where it fits.
    exec fn to_idx(self) -> (r: usize)
        requires
            0 <= self.index_int() <= usize::MAX,
        ensures
            r == self.index_int(),
    ;

    /// Compares the index against a bound without converting it, so that an
    /// arbitrarily large index can be tested defensively.
    exec fn lt_usize(self, bound: usize) -> (r: bool)
        ensures
            r == (self.index_int() < bound),
    ;
}

impl Index for u8 {
    open spec fn index_int(self) -> int {
        self as int
    }

    proof fn index_nonneg(self) {
    }

    exec fn to_idx(self) -> usize {
        self as usize
    }

    exec fn lt_usize(self, bound: usize) -> bool {
        (self as u64) < (bound as u64)
    }
}

impl Index for u16 {
    open spec fn index_int(self) -> int {
        self as int
    }

    proof fn index_nonneg(self) {
    }

    exec fn to_idx(self) -> usize {
        self as usize
    }

    exec fn lt_usize(self, bound: usize) -> bool {
        (self as u64) < (bound as u64)
    }
}

impl Index for u32 {
    open spec fn index_int(self) -> int {
        self as int
    }

    proof fn index_nonneg(self) {
    }

    exec fn to_idx(self) -> usize {
        self as usize
    }

    exec fn lt_usize(self, bound: usize) -> bool {
        (self as u64) < (bound as u64)
    }
}

impl Index for u64 {
    open spec fn index_int(self) -> int {
        self as int
    }

    proof fn index_nonneg(self) {
    }

    exec fn to_idx(self) -> usize {
        self as usize
    }

    exec fn lt_usize(self, bound: usize) -> bool {
        (self as u64) < (bound as u64)
    }
}

} // verus!
