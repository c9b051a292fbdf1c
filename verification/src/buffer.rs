use std::sync::Arc;
use vstd::prelude::*;

verus! {

/// Relies on std's `Arc::clone`: the returned handle shares the same
/// allocation as the argument, so it holds the same value.
#[verifier::external_body]
pub(crate) fn arc_clone<T>(a: &Arc<Vec<T>>) -> (r: Arc<Vec<T>>)
    ensures
        r == *a,
{
    Arc::clone(a)
}

/// Relies on std's `Deref` for `Arc`: dereferencing returns the shared value.
#[verifier::external_body]
pub(crate) fn arc_get<'a, T>(a: &'a Arc<Vec<T>>) -> (r: &'a Vec<T>)
    ensures
        *r == **a,
{
    &**a
}

/// An immutable, reference-counted, contiguous sequence of fixed-width
/// elements. Slicing is O(1) and shares the underlying allocation; the
/// allocation is never mutated after the buffer is first built.
#[derive(Debug)]
pub struct Buffer<T> {
    data: Arc<Vec<T>>,
    offset: usize,
    length: usize,
}

impl<T> View for Buffer<T> {
    type V = Seq<T>;

    closed spec fn view(&self) -> Seq<T> {
        self.data@.subrange(self.offset as int, self.offset + self.length)
    }
}

impl<T> Buffer<T> {
    #[verifier::type_invariant]
    spec fn inv(self) -> bool {
        &&& self.offset + self.length <= self.data@.len()
        &&& self.offset + self.length <= usize::MAX
    }

    /// The full underlying allocation, from its first element.
    pub closed spec fn spec_unsliced(self) -> Seq<T> {
        self.data@
    }

    /// Where this view starts inside the underlying allocation.
    pub closed spec fn spec_offset(self) -> nat {
        self.offset as nat
    }

    /// Wraps a freshly built vector; the buffer views all of it.
    pub fn from_vec(v: Vec<T>) -> (r: Buffer<T>)
        ensures
            r@ == v@,
            r.spec_offset() == 0,
            r.spec_unsliced() == v@,
    {
        let length = v.len();
        let r = Buffer { data: Arc::new(v), offset: 0, length };
        proof {
            assert(r@ =~= r.data@);
        }
        r
    }

    pub fn len(&self) -> (r: usize)
        ensures
            r == self@.len(),
    {
        proof {
            use_type_invariant(self);
        }
        self.length
    }

    pub fn offset(&self) -> (r: usize)
        ensures
            r == self.spec_offset(),
    {
        self.offset
    }

    /// Reads one element of the viewed range.
    pub fn get(&self, i: usize) -> (r: &T)
        requires
            i < self@.len(),
        ensures
            *r == self@[i as int],
    {
        proof {
            use_type_invariant(self);
        }
        let v = arc_get(&self.data);
        &v[self.offset + i]
    }

    /// The viewed range as a slice borrowed from the shared allocation.
    pub fn as_slice(&self) -> (r: &[T])
        ensures
            r@ == self@,
    {
        proof {
            use_type_invariant(self);
        }
        let v = arc_get(&self.data);
        let s = v.as_slice();
        &s[self.offset..self.offset + self.length]
    }

    /// O(1) zero-copy slice: a new view of the same allocation.
    pub fn slice(&self, offset: usize, length: usize) -> (r: Buffer<T>)
        requires
            offset + length <= self@.len(),
        ensures
            r@ == self@.subrange(offset as int, offset + length),
    {
        proof {
            use_type_invariant(self);
        }
        let r = Buffer { data: arc_clone(&self.data), offset: self.offset + offset, length };
        proof {
            assert(r@ =~= self@.subrange(offset as int, offset + length));
        }
        r
    }

    /// O(1) clone of the view: shares the allocation.
    pub fn clone_shared(&self) -> (r: Buffer<T>)
        ensures
            r@ == self@,
            r.spec_offset() == self.spec_offset(),
            r.spec_unsliced() == self.spec_unsliced(),
    {
        proof {
            use_type_invariant(self);
        }
        Buffer { data: arc_clone(&self.data), offset: self.offset, length: self.length }
    }

    /// A view of the whole underlying allocation, starting at offset zero.
    pub fn unsliced(&self) -> (r: Buffer<T>)
        ensures
            r@ == self.spec_unsliced(),
            r.spec_offset() == 0,
    {
        proof {
            use_type_invariant(self);
        }
        let v = arc_get(&self.data);
        let length = v.len();
        let r = Buffer { data: arc_clone(&self.data), offset: 0, length };
        proof {
            assert(r@ =~= r.data@);
        }
        r
    }
}

} // verus!
