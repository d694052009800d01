//! Tensors: shared, immutable nodes of a computation graph.

use std::rc::Rc;
use vstd::prelude::*;
use vstd::string::StringExecFns;
use crate::array::{
    add_defined, div_defined, is_elementwise_add, is_elementwise_div, is_elementwise_mul,
    is_elementwise_sub, mul_defined, sub_defined, DenseArray, DenseView,
};
use crate::error::{ArrayError, TensorError, TensorErrorView};
use crate::shape::{copy_shape, layout_error, same_shape, shape_size};
use crate::ident::IdCounter;
use crate::op::Operator;
use crate::text::{bool_text, debug_list, decimal, push_bool, push_decimal, push_list, spaces};

verus! {

/// What a tensor is in contracts.
pub struct TensorView<T> {
    /// The identity that the tensor was given when it was built.
    pub id: usize,
    /// The shape and the elements.
    pub data: DenseView<T>,
    /// Whether differentiation is to track the tensor.
    pub requires_grad: bool,
    /// The operation that produced the tensor; `None` for a leaf.
    pub op: Option<Operator<T>>,
}

/// A node of the graph: what a `Tensor` shares.
#[derive(Debug)]
struct Tensor_<T> {
    id: usize,
    data: DenseArray<T>,
    with_grad: bool,
    optype: Option<Operator<T>>,
}

/// A shared, immutable handle to a node of the graph. A clone is another
/// handle to the same node.
#[derive(Debug)]
pub struct Tensor<T>(Rc<Tensor_<T>>);

/// The result of an operation on tensors.
pub type TensorResult<T> = Result<Tensor<T>, TensorError>;

impl<T> View for Tensor_<T> {
    type V = TensorView<T>;

    closed spec fn view(&self) -> TensorView<T> {
        TensorView {
            id: self.id,
            data: self.data@,
            requires_grad: self.with_grad,
            op: self.optype,
        }
    }
}

impl<T> View for Tensor<T> {
    type V = TensorView<T>;

    closed spec fn view(&self) -> TensorView<T> {
        self.0@
    }
}

impl<T> Clone for Tensor<T> {
    /// Another handle to the same node.
    fn clone(&self) -> (t: Self)
        ensures
            t == *self,
    {
        Tensor(self.0.clone())
    }
}

impl<T> Tensor_<T> {
    /// A node with a fresh identity around the given data and provenance.
    pub fn new(
        data: DenseArray<T>,
        op: Option<Operator<T>>,
        with_grad: bool,
        ids: &mut IdCounter,
    ) -> (node: Self)
        requires
            old(ids).has_next(),
        ensures
            node@ == (TensorView {
                id: old(ids)@ as usize,
                data: data@,
                requires_grad: with_grad,
                op,
            }),
            final(ids)@ == old(ids)@ + 1,
    {
        Tensor_ { id: ids.get_id(), data, with_grad, optype: op }
    }
}

impl<T> Tensor<T> {
    /// A tensor with a fresh identity around the given data and provenance.
    /// Nothing is checked: the caller vouches that `op` produced `data`.
    pub fn new(
        data: DenseArray<T>,
        op: Option<Operator<T>>,
        with_grad: bool,
        ids: &mut IdCounter,
    ) -> (t: Self)
        requires
            old(ids).has_next(),
        ensures
            t@ == (TensorView {
                id: old(ids)@ as usize,
                data: data@,
                requires_grad: with_grad,
                op,
            }),
            final(ids)@ == old(ids)@ + 1,
    {
        Tensor(Rc::new(Tensor_::new(data, op, with_grad, ids)))
    }

    /// The leaf tensor of shape `shape` whose elements, in row-major order,
    /// are `vec_data`. Fails, and hands out no identity, when the elements do
    /// not fill the shape.
    pub fn from_vec(
        vec_data: Vec<T>,
        shape: Vec<usize>,
        with_grad: bool,
        ids: &mut IdCounter,
    ) -> (r: Result<Tensor<T>, ArrayError>)
        requires
            layout_error(shape@, vec_data@.len()) is None ==> old(ids).has_next(),
        ensures
            match r {
                Ok(t) => {
                    &&& layout_error(shape@, vec_data@.len()) is None
                    &&& t@ == (TensorView {
                        id: old(ids)@ as usize,
                        data: DenseView { shape: shape@, elems: vec_data@ },
                        requires_grad: with_grad,
                        op: None,
                    })
                    &&& final(ids)@ == old(ids)@ + 1
                },
                Err(e) => {
                    &&& layout_error(shape@, vec_data@.len()) == Some(e)
                    &&& final(ids)@ == old(ids)@
                },
            },
    {
        match DenseArray::from_shape_vec(shape, vec_data) {
            Ok(data) => Ok(Tensor::new(data, None, with_grad, ids)),
            Err(e) => Err(e),
        }
    }

    /// The number of axes.
    pub fn ndim(&self) -> (n: usize)
        ensures
            n == self@.data.shape.len(),
    {
        self.0.data.ndim()
    }

    /// The number of elements: the product of the axis lengths.
    pub fn len(&self) -> (n: usize)
        ensures
            n == self@.data.elems.len(),
            n == shape_size(self@.data.shape),
    {
        self.0.data.len()
    }

    /// The axis lengths.
    pub fn shape(&self) -> (s: &[usize])
        ensures
            s@ == self@.data.shape,
    {
        self.0.data.shape()
    }

    /// Whether the tensor holds no element.
    pub fn is_empty(&self) -> (b: bool)
        ensures
            b == (self@.data.elems.len() == 0),
            b == (shape_size(self@.data.shape) == 0),
    {
        self.0.data.is_empty()
    }

    /// Whether differentiation is to track the tensor.
    pub fn requires_grad(&self) -> (b: bool)
        ensures
            b == self@.requires_grad,
    {
        self.0.with_grad
    }

    /// The shape and the elements.
    pub fn data(&self) -> (d: &DenseArray<T>)
        ensures
            d@ == self@.data,
    {
        &self.0.data
    }

    /// The identity that the tensor was given when it was built.
    pub fn id(&self) -> (id: usize)
        ensures
            id == self@.id,
    {
        self.0.id
    }

    /// The operation that produced the tensor; `None` for a leaf.
    pub fn op(&self) -> (op: &Option<Operator<T>>)
        ensures
            *op == self@.op,
    {
        &self.0.optype
    }
}

impl<T> Tensor<T> {
    /// The failure that an element-wise operation named `op` reports for
    /// operands `self` and `other` of different shapes.
    pub open spec fn shape_mismatch(&self, other: &Self, op: Seq<char>) -> TensorErrorView {
        TensorErrorView::ShapeMismatchError {
            a_shape: self@.data.shape,
            b_shape: other@.data.shape,
            op,
        }
    }

    /// Whether `self` carries what every element-wise operation gives its
    /// result: the shape of the operands, a gradient flag that is set when
    /// either operand's is, and `op`, applied to these very operands, as its
    /// provenance.
    pub open spec fn records(&self, op: Operator<T>, lhs: &Self, rhs: &Self) -> bool {
        &&& self@.data.shape == lhs@.data.shape
        &&& self@.requires_grad == (lhs@.requires_grad || rhs@.requires_grad)
        &&& self@.op == Some(op)
        &&& op.operands() == seq![*lhs, *rhs]
    }

    /// Whether `self` took its identity from a counter that stood at `before`
    /// and has stood at `after` since.
    pub open spec fn built_with(&self, before: &IdCounter, after: &IdCounter) -> bool {
        &&& self@.id == before@
        &&& after@ == before@ + 1
    }

    /// One line of the graph's listing: the margin, the tensor's identity,
    /// gradient flag and shape, and the name of its operation if it has one.
    pub open spec fn line_text(&self, indent: nat) -> Seq<char> {
        let head = spaces(if indent == 0 { 1 } else { indent }) + "tensor id: "@ + decimal(
            self@.id as nat,
        ) + ", use grad: "@ + bool_text(self@.requires_grad) + ", shape: "@ + debug_list(
            self@.data.shape,
        );
        match self@.op {
            Some(op) => head + " with op: "@ + op.name() + "\n"@,
            None => head + "\n"@,
        }
    }

    /// The listing of the graph below `self`: the line of `self` at margin
    /// `indent`, then the listings of its operands, left before right, each
    /// four columns deeper.
    pub open spec fn tree_text(&self, indent: nat) -> Seq<char>
        decreases self,
    {
        self.line_text(indent) + match self@.op {
            Some(Operator::Add(a, b)) => a.tree_text(indent + 4) + b.tree_text(indent + 4),
            Some(Operator::Sub(a, b)) => a.tree_text(indent + 4) + b.tree_text(indent + 4),
            Some(Operator::Mul(a, b)) => a.tree_text(indent + 4) + b.tree_text(indent + 4),
            Some(Operator::Div(a, b)) => a.tree_text(indent + 4) + b.tree_text(indent + 4),
            Some(Operator::MatMul(a, b)) => a.tree_text(indent + 4) + b.tree_text(indent + 4),
            Some(Operator::ScalarMul(a, _)) => a.tree_text(indent + 4),
            Some(Operator::Pow(a, _)) => a.tree_text(indent + 4),
            Some(Operator::Sum(a, _)) => a.tree_text(indent + 4),
            Some(Operator::Mean(a, _)) => a.tree_text(indent + 4),
            Some(Operator::Transpose(a, _)) => a.tree_text(indent + 4),
            Some(Operator::Broadcast(a, _)) => a.tree_text(indent + 4),
            Some(Operator::Sigmoid(a)) => a.tree_text(indent + 4),
            Some(Operator::ReLU(a)) => a.tree_text(indent + 4),
            None => Seq::empty(),
        }
    }

    fn mismatch_error(&self, other: &Self, op: &str) -> (e: TensorError)
        ensures
            e@ == self.shape_mismatch(other, op@),
    {
        TensorError::ShapeMismatchError {
            a_shape: copy_shape(self.shape()),
            b_shape: copy_shape(other.shape()),
            op: String::from_str(op),
        }
    }

    fn push_line(&self, margin: &str, out: &mut String, Ghost(indent): Ghost<nat>)
        requires
            margin@ == spaces(indent),
        ensures
            final(out)@ == old(out)@ + self.line_text(indent),
    {
        if margin.is_empty() {
            proof {
                reveal_strlit(" ");
                assert(" "@ =~= spaces(1));
            }
            out.append(" ");
        } else {
            out.append(margin);
        }
        out.append("tensor id: ");
        push_decimal(out, self.id());
        out.append(", use grad: ");
        push_bool(out, self.requires_grad());
        out.append(", shape: ");
        push_list(out, self.shape());
        match self.op() {
            Some(op) => {
                let name = op.to_string();
                out.append(" with op: ");
                out.append(name.as_str());
                out.append("\n");
                assert(out@ =~= old(out)@ + self.line_text(indent));
            },
            None => {
                out.append("\n");
                assert(out@ =~= old(out)@ + self.line_text(indent));
            },
        }
    }

    fn _print_comp_tree(&self, margin: &str, out: &mut String, Ghost(indent): Ghost<nat>)
        requires
            margin@ == spaces(indent),
        ensures
            final(out)@ == old(out)@ + self.tree_text(indent),
        decreases self,
    {
        self.push_line(margin, out, Ghost(indent));
        let ghost listed = out@;
        let mut deeper = String::from_str(margin);
        deeper.append("    ");
        proof {
            reveal_strlit("    ");
            assert(deeper@ =~= spaces(indent + 4));
        }
        match self.op() {
            Some(op) => {
                match op {
                    Operator::Add(lhs, rhs)
                    | Operator::Sub(lhs, rhs)
                    | Operator::Mul(lhs, rhs)
                    | Operator::Div(lhs, rhs)
                    | Operator::MatMul(lhs, rhs) => {
                        lhs._print_comp_tree(deeper.as_str(), out, Ghost(indent + 4));
                        rhs._print_comp_tree(deeper.as_str(), out, Ghost(indent + 4));
                        assert(out@ =~= listed + (lhs.tree_text(indent + 4) + rhs.tree_text(
                            indent + 4,
                        )));
                    },
                    Operator::ScalarMul(val, _) | Operator::Pow(val, _) => {
                        val._print_comp_tree(deeper.as_str(), out, Ghost(indent + 4));
                    },
                    Operator::Sum(val, _)
                    | Operator::Mean(val, _)
                    | Operator::Transpose(val, _)
                    | Operator::Broadcast(val, _) => {
                        val._print_comp_tree(deeper.as_str(), out, Ghost(indent + 4));
                    },
                    Operator::Sigmoid(val) | Operator::ReLU(val) => {
                        val._print_comp_tree(deeper.as_str(), out, Ghost(indent + 4));
                    },
                }
            },
            None => {
                assert(out@ =~= listed + Seq::<char>::empty());
            },
        }
        assert(out@ =~= old(out)@ + self.tree_text(indent));
    }

    /// The listing of the graph below the tensor, one line for each node:
    /// the tensor itself first, then its operands, left before right, each
    /// level four columns deeper than the one above.
    pub fn print_comp_tree(&self) -> (text: String)
        ensures
            text@ == self.tree_text(0),
    {
        let mut text = String::new();
        proof {
            reveal_strlit("");
            assert(""@ =~= spaces(0));
        }
        self._print_comp_tree("", &mut text, Ghost(0));
        assert(text@ =~= self.tree_text(0));
        text
    }
}

impl<T: Copy> Tensor<T> {
    /// The element-wise sum of two tensors of one shape, recorded as
    /// `Add`. Operands of different shapes are refused: nothing is computed
    /// and no identity is handed out.
    pub fn add(&self, other: &Self, ids: &mut IdCounter) -> (r: TensorResult<T>) where
        T: core::ops::Add<Output = T>,

        requires
            self@.data.shape == other@.data.shape ==> old(ids).has_next() && add_defined(
                self@.data.elems,
                other@.data.elems,
            ),
        ensures
            match r {
                Ok(t) => {
                    &&& self@.data.shape == other@.data.shape
                    &&& t@.id == old(ids)@
                    &&& t.records(Operator::Add(*self, *other), self, other)
                    &&& is_elementwise_add(self@.data.elems, other@.data.elems, t@.data.elems)
                    &&& final(ids)@ == old(ids)@ + 1
                },
                Err(e) => {
                    &&& self@.data.shape != other@.data.shape
                    &&& e@ == self.shape_mismatch(other, "Add"@)
                    &&& final(ids)@ == old(ids)@
                },
            },
    {
        if !same_shape(self.shape(), other.shape()) {
            return Err(self.mismatch_error(other, "Add"));
        }
        let data = self.0.data.add(&other.0.data);
        let req_grad = self.requires_grad() || other.requires_grad();
        let op = Some(Operator::Add(self.clone(), other.clone()));
        Ok(Tensor::new(data, op, req_grad, ids))
    }

    /// The element-wise difference of two tensors of one shape, recorded as
    /// `Sub`. Operands of different shapes are refused: nothing is computed
    /// and no identity is handed out.
    pub fn sub(&self, other: &Self, ids: &mut IdCounter) -> (r: TensorResult<T>) where
        T: core::ops::Sub<Output = T>,

        requires
            self@.data.shape == other@.data.shape ==> old(ids).has_next() && sub_defined(
                self@.data.elems,
                other@.data.elems,
            ),
        ensures
            match r {
                Ok(t) => {
                    &&& self@.data.shape == other@.data.shape
                    &&& t@.id == old(ids)@
                    &&& t.records(Operator::Sub(*self, *other), self, other)
                    &&& is_elementwise_sub(self@.data.elems, other@.data.elems, t@.data.elems)
                    &&& final(ids)@ == old(ids)@ + 1
                },
                Err(e) => {
                    &&& self@.data.shape != other@.data.shape
                    &&& e@ == self.shape_mismatch(other, "Sub"@)
                    &&& final(ids)@ == old(ids)@
                },
            },
    {
        if !same_shape(self.shape(), other.shape()) {
            return Err(self.mismatch_error(other, "Sub"));
        }
        let data = self.0.data.sub(&other.0.data);
        let req_grad = self.requires_grad() || other.requires_grad();
        let op = Some(Operator::Sub(self.clone(), other.clone()));
        Ok(Tensor::new(data, op, req_grad, ids))
    }

    /// The element-wise product of two tensors of one shape, recorded as
    /// `Mul`. Operands of different shapes are refused: nothing is computed
    /// and no identity is handed out.
    pub fn mul(&self, other: &Self, ids: &mut IdCounter) -> (r: TensorResult<T>) where
        T: core::ops::Mul<Output = T>,

        requires
            self@.data.shape == other@.data.shape ==> old(ids).has_next() && mul_defined(
                self@.data.elems,
                other@.data.elems,
            ),
        ensures
            match r {
                Ok(t) => {
                    &&& self@.data.shape == other@.data.shape
                    &&& t@.id == old(ids)@
                    &&& t.records(Operator::Mul(*self, *other), self, other)
                    &&& is_elementwise_mul(self@.data.elems, other@.data.elems, t@.data.elems)
                    &&& final(ids)@ == old(ids)@ + 1
                },
                Err(e) => {
                    &&& self@.data.shape != other@.data.shape
                    &&& e@ == self.shape_mismatch(other, "Mul"@)
                    &&& final(ids)@ == old(ids)@
                },
            },
    {
        if !same_shape(self.shape(), other.shape()) {
            return Err(self.mismatch_error(other, "Mul"));
        }
        let data = self.0.data.mul(&other.0.data);
        let req_grad = self.requires_grad() || other.requires_grad();
        let op = Some(Operator::Mul(self.clone(), other.clone()));
        Ok(Tensor::new(data, op, req_grad, ids))
    }

    /// The element-wise quotient of two tensors of one shape, recorded as
    /// `Div`. Operands of different shapes are refused: nothing is computed
    /// and no identity is handed out.
    pub fn div(&self, other: &Self, ids: &mut IdCounter) -> (r: TensorResult<T>) where
        T: core::ops::Div<Output = T>,

        requires
            self@.data.shape == other@.data.shape ==> old(ids).has_next() && div_defined(
                self@.data.elems,
                other@.data.elems,
            ),
        ensures
            match r {
                Ok(t) => {
                    &&& self@.data.shape == other@.data.shape
                    &&& t@.id == old(ids)@
                    &&& t.records(Operator::Div(*self, *other), self, other)
                    &&& is_elementwise_div(self@.data.elems, other@.data.elems, t@.data.elems)
                    &&& final(ids)@ == old(ids)@ + 1
                },
                Err(e) => {
                    &&& self@.data.shape != other@.data.shape
                    &&& e@ == self.shape_mismatch(other, "Div"@)
                    &&& final(ids)@ == old(ids)@
                },
            },
    {
        if !same_shape(self.shape(), other.shape()) {
            return Err(self.mismatch_error(other, "Div"));
        }
        let data = self.0.data.div(&other.0.data);
        let req_grad = self.requires_grad() || other.requires_grad();
        let op = Some(Operator::Div(self.clone(), other.clone()));
        Ok(Tensor::new(data, op, req_grad, ids))
    }
}

} // verus!
