use crate::buffer::{arc_clone, arc_get};
use std::sync::Arc;
use vstd::prelude::*;

verus! {

/// How many entries of a bit sequence are set.
pub open spec fn count_set(s: Seq<bool>) -> nat
    decreases s.len(),
{
    if s.len() == 0 {
        0
    } else {
        count_set(s.drop_last()) + if s.last() {
            1nat
        } else {
            0nat
        }
    }
}

pub proof fn lemma_count_set_le_len(s: Seq<bool>)
    ensures
        count_set(s) <= s.len(),
    decreases s.len(),
{
    if s.len() > 0 {
        lemma_count_set_le_len(s.drop_last());
    }
}

/// An immutable, reference-counted bit sequence with a cached count of its
/// set bits. Used both for boolean values and for validity: in a validity
/// bitmap a set bit marks the element valid. Slicing is O(1) on the bits.
#[derive(Debug)]
pub struct Bitmap {
    bits: Arc<Vec<bool>>,
    offset: usize,
    length: usize,
    set_count: usize,
}

impl View for Bitmap {
    type V = Seq<bool>;

    closed spec fn view(&self) -> Seq<bool> {
        self.bits@.subrange(self.offset as int, self.offset + self.length)
    }
}

/// Counts the set bits of `bits` in the window `[offset, offset + length)`.
fn count_range(bits: &Vec<bool>, offset: usize, length: usize) -> (r: usize)
    requires
        offset + length <= bits@.len(),
        offset + length <= usize::MAX,
    ensures
        r == count_set(bits@.subrange(offset as int, offset + length)),
{
    let ghost whole = bits@.subrange(offset as int, offset + length);
    let mut count: usize = 0;
    let mut i: usize = 0;
    proof {
        lemma_count_set_le_len(whole);
    }
    while i < length
        invariant
            i <= length,
            offset + length <= bits@.len(),
            offset + length <= usize::MAX,
            whole == bits@.subrange(offset as int, offset + length),
            count == count_set(whole.subrange(0, i as int)),
            count <= i,
        decreases length - i,
    {
        proof {
            assert(whole.subrange(0, i + 1).drop_last() =~= whole.subrange(0, i as int));
            assert(whole.subrange(0, i + 1).last() == whole[i as int]);
        }
        if bits[offset + i] {
            count = count + 1;
        }
        i = i + 1;
    }
    proof {
        assert(whole.subrange(0, length as int) =~= whole);
    }
    count
}

impl Bitmap {
    #[verifier::type_invariant]
    spec fn inv(self) -> bool {
        &&& self.offset + self.length <= self.bits@.len()
        &&& self.offset + self.length <= usize::MAX
        &&& self.set_count == count_set(self@)
    }

    /// The full underlying allocation, from its first bit.
    pub closed spec fn spec_unsliced(self) -> Seq<bool> {
        self.bits@
    }

    /// Where this view starts inside the underlying allocation.
    pub closed spec fn spec_offset(self) -> nat {
        self.offset as nat
    }

    /// Wraps a freshly built vector of bits; the bitmap views all of it.
    pub fn from_vec(v: Vec<bool>) -> (r: Bitmap)
        ensures
            r@ == v@,
            r.spec_offset() == 0,
            r.spec_unsliced() == v@,
    {
        let length = v.len();
        let set_count = count_range(&v, 0, length);
        proof {
            assert(v@.subrange(0, length as int) =~= v@);
        }
        let r = Bitmap { bits: Arc::new(v), offset: 0, length, set_count };
        proof {
            assert(r@ =~= r.bits@);
        }
        r
    }

    pub fn len(&self) -> (r: usize)
        ensures
            r == self@.len(),
    {
        proof {
            use_type_invariant(self);
        }
        self.length
    }

    pub fn offset(&self) -> (r: usize)
        ensures
            r == self.spec_offset(),
    {
        self.offset
    }

    /// Reads one bit of the viewed range.
    pub fn get_bit(&self, i: usize) -> (r: bool)
        requires
            i < self@.len(),
        ensures
            r == self@[i as int],
    {
        proof {
            use_type_invariant(self);
        }
        let v = arc_get(&self.bits);
        v[self.offset + i]
    }

    /// The cached number of set bits in the viewed range.
    pub fn set_bits(&self) -> (r: usize)
        ensures
            r == count_set(self@),
    {
        proof {
            use_type_invariant(self);
        }
        self.set_count
    }

    /// The number of unset bits in the viewed range: for a validity bitmap,
    /// the null count.
    pub fn unset_bits(&self) -> (r: usize)
        ensures
            r == self@.len() - count_set(self@),
    {
        proof {
            use_type_invariant(self);
            lemma_count_set_le_len(self@);
        }
        self.length - self.set_count
    }

    /// O(1) zero-copy slice of the bits; the cached count is recomputed
    /// for the narrowed window.
    pub fn slice(&self, offset: usize, length: usize) -> (r: Bitmap)
        requires
            offset + length <= self@.len(),
        ensures
            r@ == self@.subrange(offset as int, offset + length),
    {
        proof {
            use_type_invariant(self);
        }
        let v = arc_get(&self.bits);
        let set_count = count_range(v, self.offset + offset, length);
        let r = Bitmap {
            bits: arc_clone(&self.bits),
            offset: self.offset + offset,
            length,
            set_count,
        };
        proof {
            assert(r@ =~= self@.subrange(offset as int, offset + length));
        }
        r
    }

    /// O(1) clone of the view: shares the allocation.
    pub fn clone_shared(&self) -> (r: Bitmap)
        ensures
            r@ == self@,
            r.spec_offset() == self.spec_offset(),
            r.spec_unsliced() == self.spec_unsliced(),
    {
        proof {
            use_type_invariant(self);
        }
        Bitmap {
            bits: arc_clone(&self.bits),
            offset: self.offset,
            length: self.length,
            set_count: self.set_count,
        }
    }

    /// A view of the whole underlying allocation, starting at offset zero.
    pub fn unsliced(&self) -> (r: Bitmap)
        ensures
            r@ == self.spec_unsliced(),
            r.spec_offset() == 0,
            self@ == r@.subrange(
                self.spec_offset() as int,
                self.spec_offset() + self@.len() as int,
            ),
    {
        proof {
            use_type_invariant(self);
        }
        let v = arc_get(&self.bits);
        let length = v.len();
        let set_count = count_range(v, 0, length);
        proof {
            assert(v@.subrange(0, length as int) =~= v@);
        }
        let r = Bitmap { bits: arc_clone(&self.bits), offset: 0, length, set_count };
        proof {
            assert(r@ =~= r.bits@);
        }
        r
    }
}

} // verus!
