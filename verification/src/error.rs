//! The failures of tensor algebra and of array construction.

use vstd::prelude::*;
use vstd::string::StringExecFns;
use crate::text::{debug_list, push_list};

verus! {

/// Why a shape and a buffer length do not make an array.
#[derive(Debug, Clone, Copy, PartialEq, Eq)]
pub enum ArrayError {
    /// The product of the non-zero axis lengths exceeds `isize::MAX`.
    Overflow,
    /// The shape asks for more elements than the buffer holds.
    OutOfBounds,
    /// The shape asks for fewer elements than the buffer holds.
    IncompatibleShape,
    /// A failure of another kind.
    Other,
}

/// A failure of an operation on tensors, with the shapes that caused it.
#[derive(Debug)]
pub enum TensorError {
    /// The operands of the element-wise operation `op` differ in shape.
    ShapeMismatchError { a_shape: Vec<usize>, b_shape: Vec<usize>, op: String },
    /// A shape cannot be broadcast into the shape that was asked for.
    BroadCastError { got_shape: Vec<usize>, expected_shape: Vec<usize> },
}

/// What a `TensorError` is in contracts.
pub enum TensorErrorView {
    ShapeMismatchError { a_shape: Seq<usize>, b_shape: Seq<usize>, op: Seq<char> },
    BroadCastError { got_shape: Seq<usize>, expected_shape: Seq<usize> },
}

impl View for TensorError {
    type V = TensorErrorView;

    open spec fn view(&self) -> TensorErrorView {
        match self {
            TensorError::ShapeMismatchError { a_shape, b_shape, op } => {
                TensorErrorView::ShapeMismatchError {
                    a_shape: a_shape@,
                    b_shape: b_shape@,
                    op: op@,
                }
            },
            TensorError::BroadCastError { got_shape, expected_shape } => {
                TensorErrorView::BroadCastError {
                    got_shape: got_shape@,
                    expected_shape: expected_shape@,
                }
            },
        }
    }
}

impl TensorErrorView {
    /// The message of the failure: one line, ended by a line feed.
    pub open spec fn message(self) -> Seq<char> {
        match self {
            TensorErrorView::ShapeMismatchError { a_shape, b_shape, op } => {
                "Shape mismatch error during ["@ + op + "] operation: shape "@ + debug_list(
                    a_shape,
                ) + " of self does not match shape "@ + debug_list(b_shape) + " of other\n"@
            },
            TensorErrorView::BroadCastError { got_shape, expected_shape } => {
                "Broadcast error: could not broadcast shape "@ + debug_list(got_shape)
                    + " into shape "@ + debug_list(expected_shape) + "\n"@
            },
        }
    }
}

impl TensorError {
    /// The message of the failure: one line, ended by a line feed.
    pub fn to_string(&self) -> (s: String)
        ensures
            s@ == self@.message(),
    {
        match self {
            TensorError::ShapeMismatchError { a_shape, b_shape, op } => {
                let mut s = String::from_str("Shape mismatch error during [");
                s.append(op.as_str());
                s.append("] operation: shape ");
                push_list(&mut s, a_shape.as_slice());
                s.append(" of self does not match shape ");
                push_list(&mut s, b_shape.as_slice());
                s.append(" of other\n");
                s
            },
            TensorError::BroadCastError { got_shape, expected_shape } => {
                let mut s = String::from_str("Broadcast error: could not broadcast shape ");
                push_list(&mut s, got_shape.as_slice());
                s.append(" into shape ");
                push_list(&mut s, expected_shape.as_slice());
                s.append("\n");
                s
            },
        }
    }
}

} // verus!
