use crate::array::binary::{monotonic, BinaryArray};
use crate::array::primitive::PrimitiveArray;
use crate::bitmap::Bitmap;
use crate::buffer::Buffer;
use crate::compute::take::Index;
use crate::types::NativeType;
use vstd::prelude::*;

verus! {

/// The byte width of element `i` of an offset-encoded layout.
pub open spec fn elem_len(offsets: Seq<usize>, i: int) -> int {
    offsets[i + 1] - offsets[i]
}

/// Appends `src[start .. end]` to `out`.
pub(crate) fn extend_bytes(out: &mut Vec<u8>, src: &[u8], start: usize, end: usize)
    requires
        start <= end,
        end <= src@.len(),
    ensures
        final(out)@ == old(out)@ + src@.subrange(start as int, end as int),
{
    let mut p = start;
    while p < end
        invariant
            start <= p <= end,
            end <= src@.len(),
            out@ == old(out)@ + src@.subrange(start as int, p as int),
        decreases end - p,
    {
        out.push(src[p]);
        proof {
            assert(out@ =~= old(out)@ + src@.subrange(start as int, p + 1));
        }
        p = p + 1;
    }
    proof {
        assert(out@ =~= old(out)@ + src@.subrange(start as int, end as int));
    }
}

/// Gathers byte ranges: for each `i`, the range of `values` beginning at
/// `starts[i]` whose width is `offsets[i + 1] - offsets[i]`, concatenated.
/// `length` is the total width, which the offsets telescope to.
pub fn take_values(length: usize, starts: &[usize], offsets: &[usize], values: &[u8]) -> (r: Buffer<
    u8,
>)
    requires
        offsets@.len() == starts@.len() + 1,
        monotonic(offsets@),
        forall|i: int|
            0 <= i < starts@.len() ==> #[trigger] starts@[i] + elem_len(offsets@, i)
                <= values@.len(),
        offsets@.last() - offsets@[0] == length,
    ensures
        r@.len() == length,
        forall|i: int|
            0 <= i < starts@.len() ==> r@.subrange(
                offsets@[i] - offsets@[0],
                offsets@[i + 1] - offsets@[0],
            ) == values@.subrange(starts@[i] as int, starts@[i] + elem_len(offsets@, i)),
{
    let n = starts.len();
    let vn = values.len();
    let mut out: Vec<u8> = Vec::new();
    let mut i: usize = 0;
    while i < n
        invariant
            i <= n,
            n == starts@.len(),
            vn == values@.len(),
            offsets@.len() == n + 1,
            monotonic(offsets@),
            forall|j: int|
                0 <= j < n ==> #[trigger] starts@[j] + elem_len(offsets@, j) <= values@.len(),
            offsets@.last() - offsets@[0] == length,
            out@.len() == offsets@[i as int] - offsets@[0],
            forall|j: int|
                0 <= j < i ==> out@.subrange(offsets@[j] - offsets@[0], offsets@[j + 1] - offsets@[0])
                    == values@.subrange(starts@[j] as int, starts@[j] + elem_len(offsets@, j)),
        decreases n - i,
    {
        let start = starts[i];
        let w = offsets[i + 1] - offsets[i];
        proof {
            assert(offsets@[i as int] <= offsets@[i + 1]);
            assert(offsets@[i + 1] <= offsets@[n as int]);
            assert(starts@[i as int] + elem_len(offsets@, i as int) <= vn);
        }
        let ghost prev = out@;
        extend_bytes(&mut out, values, start, start + w);
        proof {
            assert(out@.subrange(offsets@[i as int] - offsets@[0], offsets@[i + 1] - offsets@[0])
                =~= values@.subrange(starts@[i as int] as int, starts@[i as int] + elem_len(
                offsets@,
                i as int,
            )));
            assert forall|j: int|
                0 <= j < i implies out@.subrange(
                offsets@[j] - offsets@[0],
                offsets@[j + 1] - offsets@[0],
            ) == values@.subrange(starts@[j] as int, starts@[j] + elem_len(offsets@, j)) by {
                assert(offsets@[j + 1] <= offsets@[i as int]);
                assert(out@.subrange(offsets@[j] - offsets@[0], offsets@[j + 1] - offsets@[0])
                    =~= prev.subrange(offsets@[j] - offsets@[0], offsets@[j + 1] - offsets@[0]));
            }
        }
        i = i + 1;
    }
    Buffer::from_vec(out)
}

/// Gather when neither the source nor the indices hold nulls: element `k` of
/// the result is source element `indices[k]`, and the result carries no
/// validity bitmap.
pub fn take_no_validity<I: Index>(offsets: &[usize], values: &[u8], indices: &[I]) -> (r: (
    Buffer<usize>,
    Buffer<u8>,
    Option<Bitmap>,
))
    requires
        offsets@.len() >= 1,
        monotonic(offsets@),
        offsets@.last() <= values@.len(),
        forall|k: int|
            0 <= k < indices@.len() ==> 0 <= (#[trigger] indices@[k]).index_int() < offsets@.len()
                - 1,
    ensures
        r.0@.len() == indices@.len() + 1,
        r.0@[0] == 0,
        monotonic(r.0@),
        r.1@.len() == r.0@.last(),
        r.2 is None,
        forall|k: int|
            0 <= k < indices@.len() ==> r.0@[k + 1] - r.0@[k] == elem_len(
                offsets@,
                (#[trigger] indices@[k]).index_int(),
            ),
        forall|k: int|
            0 <= k < indices@.len() ==> r.1@.subrange(r.0@[k] as int, r.0@[k + 1] as int)
                == values@.subrange(
                offsets@[(#[trigger] indices@[k]).index_int()] as int,
                offsets@[indices@[k].index_int() + 1] as int,
            ),
{
    let n = indices.len();
    let m = offsets.len();
    let vn = values.len();
    let mut out_offsets: Vec<usize> = Vec::new();
    let mut out: Vec<u8> = Vec::new();
    out_offsets.push(0);
    let mut k: usize = 0;
    while k < n
        invariant
            k <= n,
            n == indices@.len(),
            m == offsets@.len(),
            vn == values@.len(),
            m >= 1,
            monotonic(offsets@),
            offsets@.last() <= values@.len(),
            forall|j: int|
                0 <= j < n ==> 0 <= (#[trigger] indices@[j]).index_int() < m - 1,
            out_offsets@.len() == k + 1,
            out_offsets@[0] == 0,
            monotonic(out_offsets@),
            out@.len() == out_offsets@[k as int],
            forall|j: int|
                0 <= j < k ==> out_offsets@[j + 1] - out_offsets@[j] == elem_len(
                    offsets@,
                    (#[trigger] indices@[j]).index_int(),
                ),
            forall|j: int|
                0 <= j < k ==> out@.subrange(out_offsets@[j] as int, out_offsets@[j + 1] as int)
                    == values@.subrange(
                    offsets@[(#[trigger] indices@[j]).index_int()] as int,
                    offsets@[indices@[j].index_int() + 1] as int,
                ),
        decreases n - k,
    {
        let idx = indices[k].to_idx();
        let start = offsets[idx];
        let end = offsets[idx + 1];
        proof {
            assert(start <= end);
            assert(end <= offsets@[m - 1]);
        }
        let ghost prev = out@;
        let ghost prev_offsets = out_offsets@;
        extend_bytes(&mut out, values, start, end);
        let new_len = out.len();
        out_offsets.push(new_len);
        proof {
            assert(out@.subrange(prev_offsets[k as int] as int, new_len as int) =~= values@.subrange(
                start as int,
                end as int,
            ));
            assert forall|a: int, b: int|
                0 <= a <= b < out_offsets@.len() implies out_offsets@[a] <= out_offsets@[b] by {
                if b == out_offsets@.len() - 1 {
                    if a < b {
                        assert(prev_offsets[a] <= prev_offsets[k as int]);
                        assert(prev_offsets[k as int] == prev.len());
                        assert(out_offsets@[b] == new_len);
                    }
                } else {
                    assert(out_offsets@[a] == prev_offsets[a]);
                    assert(out_offsets@[b] == prev_offsets[b]);
                }
            }
            assert(monotonic(out_offsets@));
            assert forall|j: int|
                0 <= j < k implies out@.subrange(
                out_offsets@[j] as int,
                out_offsets@[j + 1] as int,
            ) == values@.subrange(
                offsets@[(#[trigger] indices@[j]).index_int()] as int,
                offsets@[indices@[j].index_int() + 1] as int,
            ) by {
                assert(out_offsets@[j + 1] == prev_offsets[j + 1]);
                assert(out_offsets@[j] == prev_offsets[j]);
                assert(prev_offsets[j + 1] <= prev_offsets[k as int]);
                assert(out@.subrange(out_offsets@[j] as int, out_offsets@[j + 1] as int)
                    =~= prev.subrange(prev_offsets[j] as int, prev_offsets[j + 1] as int));
            }
        }
        k = k + 1;
    }
    (Buffer::from_vec(out_offsets), Buffer::from_vec(out), None)
}

/// Gather when only the source holds nulls: a valid source element is
/// copied and marked valid; an invalid one yields a zero-width invalid slot.
/// The result carries a bitmap only if some gathered element was invalid.
pub fn take_values_validity<I: Index>(values: &BinaryArray, indices: &[I]) -> (r: (
    Buffer<usize>,
    Buffer<u8>,
    Option<Bitmap>,
))
    requires
        values.spec_validity() is Some,
        forall|k: int|
            0 <= k < indices@.len() ==> 0 <= (#[trigger] indices@[k]).index_int()
                < values.spec_len(),
    ensures
        r.0@.len() == indices@.len() + 1,
        r.0@[0] == 0,
        monotonic(r.0@),
        r.1@.len() == r.0@.last(),
        forall|k: int|
            0 <= k < indices@.len() ==> r.0@[k + 1] - r.0@[k] == if values.valid_at(
                (#[trigger] indices@[k]).index_int(),
            ) {
                elem_len(values.spec_offsets(), indices@[k].index_int())
            } else {
                0
            },
        forall|k: int|
            0 <= k < indices@.len() && values.valid_at((#[trigger] indices@[k]).index_int())
                ==> r.1@.subrange(r.0@[k] as int, r.0@[k + 1] as int) == values.spec_elem(
                indices@[k].index_int(),
            ),
        match r.2 {
            Some(bm) => bm@.len() == indices@.len() && (forall|k: int|
                0 <= k < indices@.len() ==> bm@[k] == values.valid_at(
                    (#[trigger] indices@[k]).index_int(),
                )) && (exists|k: int|
                0 <= k < indices@.len() && !values.valid_at((#[trigger] indices@[k]).index_int())),
            None => forall|k: int|
                0 <= k < indices@.len() ==> values.valid_at((#[trigger] indices@[k]).index_int()),
        },
{
    let n = indices.len();
    let src_len = values.len();
    let offs = values.offsets();
    let bytes = values.values();
    let bsl = bytes.as_slice();
    let mut out_offsets: Vec<usize> = Vec::new();
    let mut out: Vec<u8> = Vec::new();
    let mut vbits: Vec<bool> = Vec::new();
    let mut any_invalid = false;
    out_offsets.push(0);
    let mut k: usize = 0;
    while k < n
        invariant
            k <= n,
            n == indices@.len(),
            src_len == values.spec_len(),
            offs@ == values.spec_offsets(),
            bsl@ == values.spec_values(),
            values.spec_validity() is Some,
            monotonic(offs@),
            offs@.len() == src_len + 1,
            offs@.last() <= bsl@.len(),
            forall|j: int|
                0 <= j < n ==> 0 <= (#[trigger] indices@[j]).index_int() < values.spec_len(),
            out_offsets@.len() == k + 1,
            out_offsets@[0] == 0,
            monotonic(out_offsets@),
            out@.len() == out_offsets@[k as int],
            vbits@.len() == k,
            forall|j: int|
                0 <= j < k ==> vbits@[j] == values.valid_at((#[trigger] indices@[j]).index_int()),
            any_invalid == exists|j: int| 0 <= j < k && !vbits@[j],
            forall|j: int|
                0 <= j < k ==> out_offsets@[j + 1] - out_offsets@[j] == if values.valid_at(
                    (#[trigger] indices@[j]).index_int(),
                ) {
                    elem_len(values.spec_offsets(), indices@[j].index_int())
                } else {
                    0
                },
            forall|j: int|
                0 <= j < k && values.valid_at((#[trigger] indices@[j]).index_int())
                    ==> out@.subrange(out_offsets@[j] as int, out_offsets@[j + 1] as int)
                    == values.spec_elem(indices@[j].index_int()),
        decreases n - k,
    {
        let idx = indices[k].to_idx();
        let vb = values.is_valid(idx);
        let start: usize;
        let end: usize;
        if vb {
            start = *offs.get(idx);
            end = *offs.get(idx + 1);
            proof {
                assert(offs@[idx as int] <= offs@[idx + 1]);
                assert(offs@[idx + 1] <= offs@[src_len as int]);
            }
        } else {
            start = 0;
            end = 0;
        }
        let ghost prev = out@;
        let ghost prev_offsets = out_offsets@;
        let ghost prev_vbits = vbits@;
        extend_bytes(&mut out, bsl, start, end);
        let new_len = out.len();
        out_offsets.push(new_len);
        vbits.push(vb);
        if !vb {
            any_invalid = true;
        }
        proof {
            assert(out@.subrange(prev_offsets[k as int] as int, new_len as int) =~= values.spec_values(
            ).subrange(start as int, end as int));
            assert forall|a: int, b: int|
                0 <= a <= b < out_offsets@.len() implies out_offsets@[a] <= out_offsets@[b] by {
                if b == out_offsets@.len() - 1 {
                    if a < b {
                        assert(prev_offsets[a] <= prev_offsets[k as int]);
                        assert(prev_offsets[k as int] == prev.len());
                        assert(out_offsets@[b] == new_len);
                    }
                } else {
                    assert(out_offsets@[a] == prev_offsets[a]);
                    assert(out_offsets@[b] == prev_offsets[b]);
                }
            }
            assert(monotonic(out_offsets@));
            assert forall|j: int|
                0 <= j < k && values.valid_at((#[trigger] indices@[j]).index_int())
                    implies out@.subrange(out_offsets@[j] as int, out_offsets@[j + 1] as int)
                == values.spec_elem(indices@[j].index_int()) by {
                assert(out_offsets@[j + 1] == prev_offsets[j + 1]);
                assert(out_offsets@[j] == prev_offsets[j]);
                assert(prev_offsets[j + 1] <= prev_offsets[k as int]);
                assert(out@.subrange(out_offsets@[j] as int, out_offsets@[j + 1] as int)
                    =~= prev.subrange(prev_offsets[j] as int, prev_offsets[j + 1] as int));
            }
            if exists|j: int| 0 <= j < prev_vbits.len() && !prev_vbits[j] {
                let j = choose|j: int| 0 <= j < prev_vbits.len() && !prev_vbits[j];
                assert(!vbits@[j]);
            }
            if !vb {
                assert(!vbits@[prev_vbits.len() as int]);
            }
            assert forall|j: int|
                0 <= j < vbits@.len() && !vbits@[j] implies (0 <= j < prev_vbits.len()
                && !prev_vbits[j]) || !vb by {
                if j < prev_vbits.len() {
                    assert(!prev_vbits[j]);
                }
            }
        }
        k = k + 1;
    }
    proof {
        if any_invalid {
            let j = choose|j: int| 0 <= j < vbits@.len() && !vbits@[j];
            assert(!values.valid_at(indices@[j].index_int()));
        } else {
            assert forall|j: int| 0 <= j < indices@.len() implies values.valid_at(
                (indices@[j]).index_int(),
            ) by {
                assert(vbits@[j]);
            }
        }
    }
    let validity = if any_invalid {
        Some(Bitmap::from_vec(vbits))
    } else {
        None
    };
    (Buffer::from_vec(out_offsets), Buffer::from_vec(out), validity)
}

/// Whether gather slot `k` draws bytes from the source when only the index
/// array holds nulls: the index must be valid and in range; an out-of-range
/// payload is tolerated defensively as an empty slot.
pub open spec fn index_copied<I: Index + NativeType>(
    offsets: Seq<usize>,
    indices: PrimitiveArray<I>,
    k: int,
) -> bool {
    indices.valid_at(k) && 0 <= indices.spec_values()[k].index_int() < offsets.len() - 1
}

/// Gather when only the indices hold nulls: a null index yields a zero-width
/// slot without consulting the source, an out-of-range index payload yields a
/// zero-width slot instead of a fault, and the result's validity is the index
/// array's, shared zero-copy.
pub fn take_indices_validity<I: Index + NativeType>(
    offsets: &[usize],
    values: &[u8],
    indices: &PrimitiveArray<I>,
) -> (r: (Buffer<usize>, Buffer<u8>, Option<Bitmap>))
    requires
        offsets@.len() >= 1,
        monotonic(offsets@),
        offsets@.last() <= values@.len(),
    ensures
        r.0@.len() == indices.spec_len() + 1,
        r.0@[0] == 0,
        monotonic(r.0@),
        r.1@.len() == r.0@.last(),
        match r.2 {
            Some(bm) => indices.spec_validity() == Some(bm@),
            None => indices.spec_validity() is None,
        },
        forall|k: int|
            0 <= k < indices.spec_len() ==> r.0@[k + 1] - r.0@[k] == if index_copied(
                offsets@,
                *indices,
                k,
            ) {
                elem_len(offsets@, indices.spec_values()[k].index_int())
            } else {
                0
            },
        forall|k: int|
            0 <= k < indices.spec_len() && index_copied(offsets@, *indices, k) ==> r.1@.subrange(
                r.0@[k] as int,
                r.0@[k + 1] as int,
            ) == values@.subrange(
                offsets@[indices.spec_values()[k].index_int()] as int,
                offsets@[indices.spec_values()[k].index_int() + 1] as int,
            ),
{
    let n = indices.len();
    let m = offsets.len();
    let iv = indices.values();
    let mut out_offsets: Vec<usize> = Vec::new();
    let mut out: Vec<u8> = Vec::new();
    out_offsets.push(0);
    let mut k: usize = 0;
    while k < n
        invariant
            k <= n,
            n == indices.spec_len(),
            m == offsets@.len(),
            m >= 1,
            monotonic(offsets@),
            offsets@.last() <= values@.len(),
            iv@ == indices.spec_values(),
            out_offsets@.len() == k + 1,
            out_offsets@[0] == 0,
            monotonic(out_offsets@),
            out@.len() == out_offsets@[k as int],
            forall|j: int|
                0 <= j < k ==> out_offsets@[j + 1] - out_offsets@[j] == if index_copied(
                    offsets@,
                    *indices,
                    j,
                ) {
                    elem_len(offsets@, indices.spec_values()[j].index_int())
                } else {
                    0
                },
            forall|j: int|
                0 <= j < k && index_copied(offsets@, *indices, j) ==> out@.subrange(
                    out_offsets@[j] as int,
                    out_offsets@[j + 1] as int,
                ) == values@.subrange(
                    offsets@[indices.spec_values()[j].index_int()] as int,
                    offsets@[indices.spec_values()[j].index_int() + 1] as int,
                ),
        decreases n - k,
    {
        let ix = *iv.get(k);
        proof {
            ix.index_nonneg();
        }
        let copied = indices.is_valid(k) && ix.lt_usize(m - 1);
        let start: usize;
        let end: usize;
        if copied {
            let idx = ix.to_idx();
            start = offsets[idx];
            end = offsets[idx + 1];
            proof {
                assert(offsets@[idx as int] <= offsets@[idx + 1]);
                assert(offsets@[idx + 1] <= offsets@[m - 1]);
            }
        } else {
            start = 0;
            end = 0;
        }
        let ghost prev = out@;
        let ghost prev_offsets = out_offsets@;
        extend_bytes(&mut out, values, start, end);
        let new_len = out.len();
        out_offsets.push(new_len);
        proof {
            assert(out@.subrange(prev_offsets[k as int] as int, new_len as int) =~= values@.subrange(
                start as int,
                end as int,
            ));
            assert forall|a: int, b: int|
                0 <= a <= b < out_offsets@.len() implies out_offsets@[a] <= out_offsets@[b] by {
                if b == out_offsets@.len() - 1 {
                    if a < b {
                        assert(prev_offsets[a] <= prev_offsets[k as int]);
                        assert(prev_offsets[k as int] == prev.len());
                        assert(out_offsets@[b] == new_len);
                    }
                } else {
                    assert(out_offsets@[a] == prev_offsets[a]);
                    assert(out_offsets@[b] == prev_offsets[b]);
                }
            }
            assert(monotonic(out_offsets@));
            assert forall|j: int|
                0 <= j < k && index_copied(offsets@, *indices, j) implies out@.subrange(
                out_offsets@[j] as int,
                out_offsets@[j + 1] as int,
            ) == values@.subrange(
                offsets@[indices.spec_values()[j].index_int()] as int,
                offsets@[indices.spec_values()[j].index_int() + 1] as int,
            ) by {
                assert(out_offsets@[j + 1] == prev_offsets[j + 1]);
                assert(out_offsets@[j] == prev_offsets[j]);
                assert(prev_offsets[j + 1] <= prev_offsets[k as int]);
                assert(out@.subrange(out_offsets@[j] as int, out_offsets@[j + 1] as int)
                    =~= prev.subrange(prev_offsets[j] as int, prev_offsets[j + 1] as int));
            }
        }
        k = k + 1;
    }
    let validity = match indices.validity() {
        Some(b) => Some(b.clone_shared()),
        None => None,
    };
    (Buffer::from_vec(out_offsets), Buffer::from_vec(out), validity)
}

/// Whether gather slot `k` draws bytes from the source when both sides hold
/// nulls: the index must be valid and name a valid source element.
pub open spec fn both_copied<I: Index + NativeType>(
    values: BinaryArray,
    indices: PrimitiveArray<I>,
    k: int,
) -> bool {
    indices.valid_at(k) && values.valid_at(indices.spec_values()[k].index_int())
}

/// Gather when both the source and the indices hold nulls: a slot is valid
/// exactly when its index is valid and names a valid source element; bytes
/// are copied only for those slots. The result carries a bitmap only if some
/// slot is invalid.
pub fn take_values_indices_validity<I: Index + NativeType>(
    values: &BinaryArray,
    indices: &PrimitiveArray<I>,
) -> (r: (Buffer<usize>, Buffer<u8>, Option<Bitmap>))
    requires
        values.spec_validity() is Some,
        forall|k: int|
            0 <= k < indices.spec_len() && indices.valid_at(k) ==> 0 <= (
            #[trigger] indices.spec_values()[k]).index_int() < values.spec_len(),
    ensures
        r.0@.len() == indices.spec_len() + 1,
        r.0@[0] == 0,
        monotonic(r.0@),
        r.1@.len() == r.0@.last(),
        forall|k: int|
            0 <= k < indices.spec_len() ==> r.0@[k + 1] - r.0@[k] == if both_copied(
                *values,
                *indices,
                k,
            ) {
                elem_len(values.spec_offsets(), indices.spec_values()[k].index_int())
            } else {
                0
            },
        forall|k: int|
            0 <= k < indices.spec_len() && both_copied(*values, *indices, k) ==> r.1@.subrange(
                r.0@[k] as int,
                r.0@[k + 1] as int,
            ) == values.spec_elem(indices.spec_values()[k].index_int()),
        match r.2 {
            Some(bm) => bm@.len() == indices.spec_len() && (forall|k: int|
                0 <= k < indices.spec_len() ==> bm@[k] == both_copied(*values, *indices, k)) && (
            exists|k: int| 0 <= k < indices.spec_len() && !both_copied(*values, *indices, k)),
            None => forall|k: int|
                0 <= k < indices.spec_len() ==> both_copied(*values, *indices, k),
        },
{
    let n = indices.len();
    let src_len = values.len();
    let offs = values.offsets();
    let bytes = values.values();
    let bsl = bytes.as_slice();
    let iv = indices.values();
    let mut out_offsets: Vec<usize> = Vec::new();
    let mut out: Vec<u8> = Vec::new();
    let mut vbits: Vec<bool> = Vec::new();
    let mut any_invalid = false;
    out_offsets.push(0);
    let mut k: usize = 0;
    while k < n
        invariant
            k <= n,
            n == indices.spec_len(),
            src_len == values.spec_len(),
            offs@ == values.spec_offsets(),
            bsl@ == values.spec_values(),
            iv@ == indices.spec_values(),
            values.spec_validity() is Some,
            monotonic(offs@),
            offs@.len() == src_len + 1,
            offs@.last() <= bsl@.len(),
            forall|j: int|
                0 <= j < n && indices.valid_at(j) ==> 0 <= (
                #[trigger] indices.spec_values()[j]).index_int() < values.spec_len(),
            out_offsets@.len() == k + 1,
            out_offsets@[0] == 0,
            monotonic(out_offsets@),
            out@.len() == out_offsets@[k as int],
            vbits@.len() == k,
            forall|j: int| 0 <= j < k ==> vbits@[j] == both_copied(*values, *indices, j),
            any_invalid == exists|j: int| 0 <= j < k && !vbits@[j],
            forall|j: int|
                0 <= j < k ==> out_offsets@[j + 1] - out_offsets@[j] == if both_copied(
                    *values,
                    *indices,
                    j,
                ) {
                    elem_len(values.spec_offsets(), indices.spec_values()[j].index_int())
                } else {
                    0
                },
            forall|j: int|
                0 <= j < k && both_copied(*values, *indices, j) ==> out@.subrange(
                    out_offsets@[j] as int,
                    out_offsets@[j + 1] as int,
                ) == values.spec_elem(indices.spec_values()[j].index_int()),
        decreases n - k,
    {
        let ix = *iv.get(k);
        proof {
            ix.index_nonneg();
        }
        let vb: bool;
        let start: usize;
        let end: usize;
        if indices.is_valid(k) {
            let idx = ix.to_idx();
            if values.is_valid(idx) {
                vb = true;
                start = *offs.get(idx);
                end = *offs.get(idx + 1);
                proof {
                    assert(offs@[idx as int] <= offs@[idx + 1]);
                    assert(offs@[idx + 1] <= offs@[src_len as int]);
                }
            } else {
                vb = false;
                start = 0;
                end = 0;
            }
        } else {
            vb = false;
            start = 0;
            end = 0;
        }
        let ghost prev = out@;
        let ghost prev_offsets = out_offsets@;
        let ghost prev_vbits = vbits@;
        extend_bytes(&mut out, bsl, start, end);
        let new_len = out.len();
        out_offsets.push(new_len);
        vbits.push(vb);
        if !vb {
            any_invalid = true;
        }
        proof {
            assert(out@.subrange(prev_offsets[k as int] as int, new_len as int) =~= values.spec_values(
            ).subrange(start as int, end as int));
            assert forall|a: int, b: int|
                0 <= a <= b < out_offsets@.len() implies out_offsets@[a] <= out_offsets@[b] by {
                if b == out_offsets@.len() - 1 {
                    if a < b {
                        assert(prev_offsets[a] <= prev_offsets[k as int]);
                        assert(prev_offsets[k as int] == prev.len());
                        assert(out_offsets@[b] == new_len);
                    }
                } else {
                    assert(out_offsets@[a] == prev_offsets[a]);
                    assert(out_offsets@[b] == prev_offsets[b]);
                }
            }
            assert(monotonic(out_offsets@));
            assert forall|j: int|
                0 <= j < k && both_copied(*values, *indices, j) implies out@.subrange(
                out_offsets@[j] as int,
                out_offsets@[j + 1] as int,
            ) == values.spec_elem(indices.spec_values()[j].index_int()) by {
                assert(out_offsets@[j + 1] == prev_offsets[j + 1]);
                assert(out_offsets@[j] == prev_offsets[j]);
                assert(prev_offsets[j + 1] <= prev_offsets[k as int]);
                assert(out@.subrange(out_offsets@[j] as int, out_offsets@[j + 1] as int)
                    =~= prev.subrange(prev_offsets[j] as int, prev_offsets[j + 1] as int));
            }
            if exists|j: int| 0 <= j < prev_vbits.len() && !prev_vbits[j] {
                let j = choose|j: int| 0 <= j < prev_vbits.len() && !prev_vbits[j];
                assert(!vbits@[j]);
            }
            if !vb {
                assert(!vbits@[prev_vbits.len() as int]);
            }
            assert forall|j: int|
                0 <= j < vbits@.len() && !vbits@[j] implies (0 <= j < prev_vbits.len()
                && !prev_vbits[j]) || !vb by {
                if j < prev_vbits.len() {
                    assert(!prev_vbits[j]);
                }
            }
        }
        k = k + 1;
    }
    proof {
        if any_invalid {
            let j = choose|j: int| 0 <= j < vbits@.len() && !vbits@[j];
            assert(!both_copied(*values, *indices, j));
        } else {
            assert forall|j: int| 0 <= j < indices.spec_len() implies both_copied(
                *values,
                *indices,
                j,
            ) by {
                assert(vbits@[j]);
            }
        }
    }
    let validity = if any_invalid {
        Some(Bitmap::from_vec(vbits))
    } else {
        None
    };
    (Buffer::from_vec(out_offsets), Buffer::from_vec(out), validity)
}

/// Identity gather law: gathering through the identity index sequence
/// reproduces every source element of an offset-encoded array, byte for
/// byte. The premises are exactly what `take_no_validity` ensures of its
/// result together with indices that name each position in order.
pub proof fn lemma_identity_take<I: Index>(
    offsets: Seq<usize>,
    values: Seq<u8>,
    indices: Seq<I>,
    out_offsets: Seq<usize>,
    out_bytes: Seq<u8>,
)
    requires
        offsets.len() >= 1,
        indices.len() == offsets.len() - 1,
        forall|k: int| 0 <= k < indices.len() ==> (#[trigger] indices[k]).index_int() == k,
        out_offsets.len() == indices.len() + 1,
        forall|k: int|
            0 <= k < indices.len() ==> out_offsets[k + 1] - out_offsets[k] == elem_len(
                offsets,
                (#[trigger] indices[k]).index_int(),
            ),
        forall|k: int|
            0 <= k < indices.len() ==> out_bytes.subrange(
                out_offsets[k] as int,
                out_offsets[k + 1] as int,
            ) == values.subrange(
                offsets[(#[trigger] indices[k]).index_int()] as int,
                offsets[indices[k].index_int() + 1] as int,
            ),
    ensures
        forall|k: int|
            0 <= k < indices.len() ==> out_offsets[k + 1] - out_offsets[k] == elem_len(offsets, k),
        forall|k: int|
            0 <= k < indices.len() ==> #[trigger] out_bytes.subrange(
                out_offsets[k] as int,
                out_offsets[k + 1] as int,
            ) == values.subrange(offsets[k] as int, offsets[k + 1] as int),
{
    assert forall|k: int| 0 <= k < indices.len() implies out_offsets[k + 1] - out_offsets[k]
        == elem_len(offsets, k) by {
        assert(indices[k].index_int() == k);
    }
    assert forall|k: int| 0 <= k < indices.len() implies #[trigger] out_bytes.subrange(
        out_offsets[k] as int,
        out_offsets[k + 1] as int,
    ) == values.subrange(offsets[k] as int, offsets[k + 1] as int) by {
        assert(indices[k].index_int() == k);
    }
}

} // verus!




