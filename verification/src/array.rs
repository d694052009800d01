//! Dense n-dimensional data: a shape and the elements in row-major order.

use vstd::prelude::*;
use crate::backend::{
    checked_from_shape_vec, elementwise_add, elementwise_div, elementwise_mul, elementwise_sub,
};
use crate::error::ArrayError;
use crate::shape::{copy_shape, layout_error, layout_ok, shape_size};

verus! {

/// Whether `T`'s own `+` accepts each pair of elements that stand at one
/// position of `a` and `b`.
pub open spec fn add_defined<T: core::ops::Add<Output = T>>(a: Seq<T>, b: Seq<T>) -> bool {
    forall|i: int| 0 <= i < a.len() ==> call_requires(T::add, (#[trigger] a[i], b[i]))
}

/// Whether `out` is the element-wise sum of `a` and `b`: as long as they
/// are, and at each position what `T`'s own `+` gives there.
pub open spec fn is_elementwise_add<T: core::ops::Add<Output = T>>(
    a: Seq<T>,
    b: Seq<T>,
    out: Seq<T>,
) -> bool {
    &&& out.len() == a.len()
    &&& forall|i: int|
        0 <= i < a.len() ==> call_ensures(T::add, (a[i], b[i]), #[trigger] out[i])
}

/// Whether `T`'s own `-` accepts each pair of elements that stand at one
/// position of `a` and `b`.
pub open spec fn sub_defined<T: core::ops::Sub<Output = T>>(a: Seq<T>, b: Seq<T>) -> bool {
    forall|i: int| 0 <= i < a.len() ==> call_requires(T::sub, (#[trigger] a[i], b[i]))
}

/// Whether `out` is the element-wise difference of `a` and `b`: as long as they
/// are, and at each position what `T`'s own `-` gives there.
pub open spec fn is_elementwise_sub<T: core::ops::Sub<Output = T>>(
    a: Seq<T>,
    b: Seq<T>,
    out: Seq<T>,
) -> bool {
    &&& out.len() == a.len()
    &&& forall|i: int|
        0 <= i < a.len() ==> call_ensures(T::sub, (a[i], b[i]), #[trigger] out[i])
}

/// Whether `T`'s own `*` accepts each pair of elements that stand at one
/// position of `a` and `b`.
pub open spec fn mul_defined<T: core::ops::Mul<Output = T>>(a: Seq<T>, b: Seq<T>) -> bool {
    forall|i: int| 0 <= i < a.len() ==> call_requires(T::mul, (#[trigger] a[i], b[i]))
}

/// Whether `out` is the element-wise product of `a` and `b`: as long as they
/// are, and at each position what `T`'s own `*` gives there.
pub open spec fn is_elementwise_mul<T: core::ops::Mul<Output = T>>(
    a: Seq<T>,
    b: Seq<T>,
    out: Seq<T>,
) -> bool {
    &&& out.len() == a.len()
    &&& forall|i: int|
        0 <= i < a.len() ==> call_ensures(T::mul, (a[i], b[i]), #[trigger] out[i])
}

/// Whether `T`'s own `/` accepts each pair of elements that stand at one
/// position of `a` and `b`.
pub open spec fn div_defined<T: core::ops::Div<Output = T>>(a: Seq<T>, b: Seq<T>) -> bool {
    forall|i: int| 0 <= i < a.len() ==> call_requires(T::div, (#[trigger] a[i], b[i]))
}

/// Whether `out` is the element-wise quotient of `a` and `b`: as long as they
/// are, and at each position what `T`'s own `/` gives there.
pub open spec fn is_elementwise_div<T: core::ops::Div<Output = T>>(
    a: Seq<T>,
    b: Seq<T>,
    out: Seq<T>,
) -> bool {
    &&& out.len() == a.len()
    &&& forall|i: int|
        0 <= i < a.len() ==> call_ensures(T::div, (a[i], b[i]), #[trigger] out[i])
}

/// What a dense array is in contracts: its shape and its elements in
/// row-major order.
pub struct DenseView<T> {
    pub shape: Seq<usize>,
    pub elems: Seq<T>,
}

/// A dense array. Its elements always fill its shape exactly.
#[derive(Debug, PartialEq)]
pub struct DenseArray<T> {
    shape: Vec<usize>,
    elems: Vec<T>,
}

impl<T> View for DenseArray<T> {
    type V = DenseView<T>;

    closed spec fn view(&self) -> DenseView<T> {
        DenseView { shape: self.shape@, elems: self.elems@ }
    }
}

impl<T> DenseArray<T> {
    #[verifier::type_invariant]
    spec fn well_formed(&self) -> bool {
        layout_ok(self.shape@, self.elems@.len())
    }

    /// Builds the array of shape `shape` whose elements, in row-major order,
    /// are `elems`.
    pub fn from_shape_vec(shape: Vec<usize>, elems: Vec<T>) -> (r: Result<Self, ArrayError>)
        ensures
            match r {
                Ok(a) => layout_error(shape@, elems@.len()) is None && a@ == (DenseView {
                    shape: shape@,
                    elems: elems@,
                }),
                Err(e) => layout_error(shape@, elems@.len()) == Some(e),
            },
    {
        match checked_from_shape_vec(&shape, elems) {
            Ok(kept) => Ok(DenseArray { shape, elems: kept }),
            Err(e) => Err(e),
        }
    }

    /// The axis lengths.
    pub fn shape(&self) -> (s: &[usize])
        ensures
            s@ == self@.shape,
    {
        self.shape.as_slice()
    }

    /// The elements in row-major order.
    pub fn as_slice(&self) -> (s: &[T])
        ensures
            s@ == self@.elems,
    {
        self.elems.as_slice()
    }

    /// The number of axes.
    pub fn ndim(&self) -> (n: usize)
        ensures
            n == self@.shape.len(),
    {
        self.shape.len()
    }

    /// The number of elements.
    pub fn len(&self) -> (n: usize)
        ensures
            n == self@.elems.len(),
            n == shape_size(self@.shape),
    {
        proof {
            use_type_invariant(self);
        }
        self.elems.len()
    }

    /// Whether the array holds no element.
    pub fn is_empty(&self) -> (b: bool)
        ensures
            b == (self@.elems.len() == 0),
            b == (shape_size(self@.shape) == 0),
    {
        proof {
            use_type_invariant(self);
        }
        self.elems.len() == 0
    }
}

impl<T: Copy> DenseArray<T> {
    /// The element-wise sum of two arrays of one shape.
    pub fn add(&self, rhs: &Self) -> (out: Self) where T: core::ops::Add<Output = T>
        requires
            self@.shape == rhs@.shape,
            add_defined(self@.elems, rhs@.elems),
        ensures
            out@.shape == self@.shape,
            is_elementwise_add(self@.elems, rhs@.elems, out@.elems),
    {
        proof {
            use_type_invariant(self);
            use_type_invariant(rhs);
        }
        let elems = elementwise_add(&self.shape, &self.elems, &rhs.elems);
        DenseArray { shape: copy_shape(self.shape.as_slice()), elems }
    }

    /// The element-wise difference of two arrays of one shape.
    pub fn sub(&self, rhs: &Self) -> (out: Self) where T: core::ops::Sub<Output = T>
        requires
            self@.shape == rhs@.shape,
            sub_defined(self@.elems, rhs@.elems),
        ensures
            out@.shape == self@.shape,
            is_elementwise_sub(self@.elems, rhs@.elems, out@.elems),
    {
        proof {
            use_type_invariant(self);
            use_type_invariant(rhs);
        }
        let elems = elementwise_sub(&self.shape, &self.elems, &rhs.elems);
        DenseArray { shape: copy_shape(self.shape.as_slice()), elems }
    }

    /// The element-wise product of two arrays of one shape.
    pub fn mul(&self, rhs: &Self) -> (out: Self) where T: core::ops::Mul<Output = T>
        requires
            self@.shape == rhs@.shape,
            mul_defined(self@.elems, rhs@.elems),
        ensures
            out@.shape == self@.shape,
            is_elementwise_mul(self@.elems, rhs@.elems, out@.elems),
    {
        proof {
            use_type_invariant(self);
            use_type_invariant(rhs);
        }
        let elems = elementwise_mul(&self.shape, &self.elems, &rhs.elems);
        DenseArray { shape: copy_shape(self.shape.as_slice()), elems }
    }

    /// The element-wise quotient of two arrays of one shape.
    pub fn div(&self, rhs: &Self) -> (out: Self) where T: core::ops::Div<Output = T>
        requires
            self@.shape == rhs@.shape,
            div_defined(self@.elems, rhs@.elems),
        ensures
            out@.shape == self@.shape,
            is_elementwise_div(self@.elems, rhs@.elems, out@.elems),
    {
        proof {
            use_type_invariant(self);
            use_type_invariant(rhs);
        }
        let elems = elementwise_div(&self.shape, &self.elems, &rhs.elems);
        DenseArray { shape: copy_shape(self.shape.as_slice()), elems }
    }
}

} // verus!
