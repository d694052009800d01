//! The record of how a tensor was produced.

use vstd::prelude::*;
use vstd::string::StringExecFns;
use crate::tensor::Tensor;
use crate::text::{debug_list, push_list};

verus! {

/// The operation that produced a tensor, with the operands it was applied to.
#[derive(Debug)]
pub enum Operator<T> {
    /// Element-wise sum of two tensors.
    Add(Tensor<T>, Tensor<T>),
    /// Element-wise difference of two tensors.
    Sub(Tensor<T>, Tensor<T>),
    /// Element-wise product of two tensors.
    Mul(Tensor<T>, Tensor<T>),
    /// Element-wise quotient of two tensors.
    Div(Tensor<T>, Tensor<T>),
    /// Matrix product over the last two axes of each operand.
    MatMul(Tensor<T>, Tensor<T>),
    /// Product of a tensor and a scalar.
    ScalarMul(Tensor<T>, T),
    /// A tensor raised to a scalar power.
    Pow(Tensor<T>, T),
    /// Sum over the given axes.
    Sum(Tensor<T>, Vec<usize>),
    /// Mean over the given axes.
    Mean(Tensor<T>, Vec<usize>),
    /// Transposition by the given permutation of the axes.
    Transpose(Tensor<T>, Vec<usize>),
    /// Broadcast to the given shape.
    Broadcast(Tensor<T>, Vec<usize>),
    /// Sigmoid activation.
    Sigmoid(Tensor<T>),
    /// Rectified-linear activation.
    ReLU(Tensor<T>),
}

impl<T: Clone> Clone for Operator<T> {
    /// The same operation on handles to the same operands.
    fn clone(&self) -> Self {
        match self {
            Operator::Add(a, b) => Operator::Add(a.clone(), b.clone()),
            Operator::Sub(a, b) => Operator::Sub(a.clone(), b.clone()),
            Operator::Mul(a, b) => Operator::Mul(a.clone(), b.clone()),
            Operator::Div(a, b) => Operator::Div(a.clone(), b.clone()),
            Operator::MatMul(a, b) => Operator::MatMul(a.clone(), b.clone()),
            Operator::ScalarMul(a, x) => Operator::ScalarMul(a.clone(), x.clone()),
            Operator::Pow(a, x) => Operator::Pow(a.clone(), x.clone()),
            Operator::Sum(a, list) => Operator::Sum(a.clone(), list.clone()),
            Operator::Mean(a, list) => Operator::Mean(a.clone(), list.clone()),
            Operator::Transpose(a, list) => Operator::Transpose(a.clone(), list.clone()),
            Operator::Broadcast(a, list) => Operator::Broadcast(a.clone(), list.clone()),
            Operator::Sigmoid(a) => Operator::Sigmoid(a.clone()),
            Operator::ReLU(a) => Operator::ReLU(a.clone()),
        }
    }
}

impl<T> Operator<T> {
    /// The name under which the operation is shown.
    pub open spec fn name(&self) -> Seq<char> {
        match self {
            Operator::Add(_, _) => "Add"@,
            Operator::Sub(_, _) => "Sub"@,
            Operator::Mul(_, _) => "Mul"@,
            Operator::Div(_, _) => "Div"@,
            Operator::MatMul(_, _) => "MatMul"@,
            Operator::ScalarMul(_, _) => "Scalar multiplication"@,
            Operator::Pow(_, _) => "Scalar exponentiation"@,
            Operator::Sum(_, axes) => "Sum over axes: "@ + debug_list(axes@),
            Operator::Mean(_, axes) => "Mean over axes: "@ + debug_list(axes@),
            Operator::Transpose(_, axes) => "Transpose axes: "@ + debug_list(axes@),
            Operator::Broadcast(_, shape) => "Broadcast to shape: "@ + debug_list(shape@),
            Operator::Sigmoid(_) => "Sigmoid activation"@,
            Operator::ReLU(_) => "ReLU activation"@,
        }
    }

    /// The tensors that the operation was applied to, in their declared
    /// order: the left operand before the right one.
    pub open spec fn operands(&self) -> Seq<Tensor<T>> {
        match self {
            Operator::Add(a, b) => seq![*a, *b],
            Operator::Sub(a, b) => seq![*a, *b],
            Operator::Mul(a, b) => seq![*a, *b],
            Operator::Div(a, b) => seq![*a, *b],
            Operator::MatMul(a, b) => seq![*a, *b],
            Operator::ScalarMul(a, _) => seq![*a],
            Operator::Pow(a, _) => seq![*a],
            Operator::Sum(a, _) => seq![*a],
            Operator::Mean(a, _) => seq![*a],
            Operator::Transpose(a, _) => seq![*a],
            Operator::Broadcast(a, _) => seq![*a],
            Operator::Sigmoid(a) => seq![*a],
            Operator::ReLU(a) => seq![*a],
        }
    }

    /// The name under which the operation is shown.
    pub fn to_string(&self) -> (s: String)
        ensures
            s@ == self.name(),
    {
        match self {
            Operator::Add(_, _) => String::from_str("Add"),
            Operator::Sub(_, _) => String::from_str("Sub"),
            Operator::Mul(_, _) => String::from_str("Mul"),
            Operator::Div(_, _) => String::from_str("Div"),
            Operator::MatMul(_, _) => String::from_str("MatMul"),
            Operator::ScalarMul(_, _) => String::from_str("Scalar multiplication"),
            Operator::Pow(_, _) => String::from_str("Scalar exponentiation"),
            Operator::Sum(_, axes) => {
                let mut s = String::from_str("Sum over axes: ");
                push_list(&mut s, axes.as_slice());
                s
            },
            Operator::Mean(_, axes) => {
                let mut s = String::from_str("Mean over axes: ");
                push_list(&mut s, axes.as_slice());
                s
            },
            Operator::Transpose(_, axes) => {
                let mut s = String::from_str("Transpose axes: ");
                push_list(&mut s, axes.as_slice());
                s
            },
            Operator::Broadcast(_, shape) => {
                let mut s = String::from_str("Broadcast to shape: ");
                push_list(&mut s, shape.as_slice());
                s
            },
            Operator::Sigmoid(_) => String::from_str("Sigmoid activation"),
            Operator::ReLU(_) => String::from_str("ReLU activation"),
        }
    }
}

} // verus!
