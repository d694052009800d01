//! Shapes: lists of axis lengths, their sizes, and when a buffer fills one.

use vstd::prelude::*;
use crate::error::ArrayError;

verus! {

/// The number of elements of an array of shape `s`: the product of its axis
/// lengths, 1 for the empty shape.
pub open spec fn shape_size(s: Seq<usize>) -> nat
    decreases s.len(),
{
    if s.len() == 0 {
        1
    } else {
        shape_size(s.drop_last()) * (s.last() as nat)
    }
}

/// The product of the axis lengths of `s` that are not zero.
pub open spec fn nonzero_size(s: Seq<usize>) -> nat
    decreases s.len(),
{
    if s.len() == 0 {
        1
    } else if s.last() == 0 {
        nonzero_size(s.drop_last())
    } else {
        nonzero_size(s.drop_last()) * (s.last() as nat)
    }
}

/// The failure, if any, of laying out `len` elements in shape `shape`.
pub open spec fn layout_error(shape: Seq<usize>, len: nat) -> Option<ArrayError> {
    if nonzero_size(shape) > isize::MAX as nat {
        Some(ArrayError::Overflow)
    } else if shape_size(shape) > len {
        Some(ArrayError::OutOfBounds)
    } else if shape_size(shape) < len {
        Some(ArrayError::IncompatibleShape)
    } else {
        None
    }
}

/// Whether `len` elements fill an array of shape `shape` exactly.
pub open spec fn layout_ok(shape: Seq<usize>, len: nat) -> bool {
    layout_error(shape, len) is None
}

/// The sizes of the empty shape: a single element.
pub proof fn lemma_size_empty()
    ensures
        shape_size(Seq::<usize>::empty()) == 1,
        nonzero_size(Seq::<usize>::empty()) == 1,
{
}

/// One more axis multiplies the size by its length; an axis of length zero
/// leaves the product of the non-zero lengths as it was.
pub proof fn lemma_size_push(s: Seq<usize>, d: usize)
    ensures
        shape_size(s.push(d)) == shape_size(s) * (d as nat),
        nonzero_size(s.push(d)) == if d == 0 {
            nonzero_size(s)
        } else {
            nonzero_size(s) * (d as nat)
        },
{
    assert(s.push(d).drop_last() =~= s);
}

/// A copy of a list of axis lengths.
pub(crate) fn copy_shape(shape: &[usize]) -> (out: Vec<usize>)
    ensures
        out@ == shape@,
{
    let mut out: Vec<usize> = Vec::new();
    let mut i: usize = 0;
    while i < shape.len()
        invariant
            i <= shape@.len(),
            out@ == shape@.take(i as int),
        decreases shape@.len() - i,
    {
        out.push(shape[i]);
        proof {
            assert(out@ =~= shape@.take(i + 1));
        }
        i = i + 1;
    }
    proof {
        assert(shape@.take(shape@.len() as int) =~= shape@);
    }
    out
}

/// Whether two lists of axis lengths are the same.
pub(crate) fn same_shape(a: &[usize], b: &[usize]) -> (same: bool)
    ensures
        same == (a@ == b@),
{
    if a.len() != b.len() {
        return false;
    }
    let mut i: usize = 0;
    while i < a.len()
        invariant
            a@.len() == b@.len(),
            i <= a@.len(),
            a@.take(i as int) == b@.take(i as int),
        decreases a@.len() - i,
    {
        if a[i] != b[i] {
            return false;
        }
        proof {
            assert(a@.take(i + 1) =~= a@.take(i as int).push(a@[i as int]));
            assert(b@.take(i + 1) =~= b@.take(i as int).push(b@[i as int]));
        }
        i = i + 1;
    }
    proof {
        assert(a@.take(a@.len() as int) =~= a@);
        assert(b@.take(b@.len() as int) =~= b@);
    }
    true
}

} // verus!
