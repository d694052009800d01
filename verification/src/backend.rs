//! The calls into `ndarray`, which validates layouts and runs the element-wise
//! kernels. Each function here states what the crate's source shows of the
//! call; none of these statements is proved.

use vstd::prelude::*;
use crate::error::ArrayError;
use crate::shape::{layout_error, layout_ok};

verus! {

/// `ndarray::ArrayD::from_shape_vec` with a row-major shape, followed by
/// `into_raw_vec`. The contract claims that the call succeeds exactly when the
/// product of the non-zero axis lengths fits in `isize` and the product of all
/// axis lengths is the buffer's length, that it then hands the buffer back
/// unchanged, and that it otherwise reports the first of the three failures
/// that applies.
#[verifier::external_body]
pub(crate) fn checked_from_shape_vec<T>(shape: &Vec<usize>, elems: Vec<T>) -> (r: Result<
    Vec<T>,
    ArrayError,
>)
    ensures
        match r {
            Ok(v) => layout_error(shape@, elems@.len()) is None && v@ == elems@,
            Err(e) => layout_error(shape@, elems@.len()) == Some(e),
        },
{
    match ndarray::ArrayD::from_shape_vec(ndarray::IxDyn(shape.as_slice()), elems) {
        Ok(a) => Ok(a.into_raw_vec()),
        Err(e) => Err(
            match e.kind() {
                ndarray::ErrorKind::Overflow => ArrayError::Overflow,
                ndarray::ErrorKind::OutOfBounds => ArrayError::OutOfBounds,
                ndarray::ErrorKind::IncompatibleShape => ArrayError::IncompatibleShape,
                _ => ArrayError::Other,
            },
        ),
    }
}

/// `+` of `ndarray` on two `ArrayViewD`s, made by `from_shape` over the two
/// buffers in row-major order, with the result read off by `iter`. The
/// contract claims that the result has one element for each position, in
/// row-major order, and that this element is what `T`'s own `+` returns for
/// the two elements at that position. `ndarray` hands the operator a clone of
/// each element; the claim takes the clone of a `Copy` value to be that value.
#[verifier::external_body]
pub(crate) fn elementwise_add<T: Copy + core::ops::Add<Output = T>>(
    shape: &Vec<usize>,
    lhs: &Vec<T>,
    rhs: &Vec<T>,
) -> (out: Vec<T>)
    requires
        layout_ok(shape@, lhs@.len()),
        lhs@.len() == rhs@.len(),
        forall|i: int|
            0 <= i < lhs@.len() ==> call_requires(T::add, (#[trigger] lhs@[i], rhs@[i])),
    ensures
        out@.len() == lhs@.len(),
        forall|i: int|
            0 <= i < lhs@.len() ==> call_ensures(T::add, (lhs@[i], rhs@[i]), #[trigger] out@[i]),
{
    let dim = ndarray::IxDyn(shape.as_slice());
    let a = ndarray::ArrayViewD::from_shape(dim.clone(), lhs.as_slice()).unwrap();
    let b = ndarray::ArrayViewD::from_shape(dim, rhs.as_slice()).unwrap();
    (&a + &b).iter().copied().collect()
}

/// `-` of `ndarray` on two `ArrayViewD`s, made by `from_shape` over the two
/// buffers in row-major order, with the result read off by `iter`. The
/// contract claims that the result has one element for each position, in
/// row-major order, and that this element is what `T`'s own `-` returns for
/// the two elements at that position. `ndarray` hands the operator a clone of
/// each element; the claim takes the clone of a `Copy` value to be that value.
#[verifier::external_body]
pub(crate) fn elementwise_sub<T: Copy + core::ops::Sub<Output = T>>(
    shape: &Vec<usize>,
    lhs: &Vec<T>,
    rhs: &Vec<T>,
) -> (out: Vec<T>)
    requires
        layout_ok(shape@, lhs@.len()),
        lhs@.len() == rhs@.len(),
        forall|i: int|
            0 <= i < lhs@.len() ==> call_requires(T::sub, (#[trigger] lhs@[i], rhs@[i])),
    ensures
        out@.len() == lhs@.len(),
        forall|i: int|
            0 <= i < lhs@.len() ==> call_ensures(T::sub, (lhs@[i], rhs@[i]), #[trigger] out@[i]),
{
    let dim = ndarray::IxDyn(shape.as_slice());
    let a = ndarray::ArrayViewD::from_shape(dim.clone(), lhs.as_slice()).unwrap();
    let b = ndarray::ArrayViewD::from_shape(dim, rhs.as_slice()).unwrap();
    (&a - &b).iter().copied().collect()
}

/// `*` of `ndarray` on two `ArrayViewD`s, made by `from_shape` over the two
/// buffers in row-major order, with the result read off by `iter`. The
/// contract claims that the result has one element for each position, in
/// row-major order, and that this element is what `T`'s own `*` returns for
/// the two elements at that position. `ndarray` hands the operator a clone of
/// each element; the claim takes the clone of a `Copy` value to be that value.
#[verifier::external_body]
pub(crate) fn elementwise_mul<T: Copy + core::ops::Mul<Output = T>>(
    shape: &Vec<usize>,
    lhs: &Vec<T>,
    rhs: &Vec<T>,
) -> (out: Vec<T>)
    requires
        layout_ok(shape@, lhs@.len()),
        lhs@.len() == rhs@.len(),
        forall|i: int|
            0 <= i < lhs@.len() ==> call_requires(T::mul, (#[trigger] lhs@[i], rhs@[i])),
    ensures
        out@.len() == lhs@.len(),
        forall|i: int|
            0 <= i < lhs@.len() ==> call_ensures(T::mul, (lhs@[i], rhs@[i]), #[trigger] out@[i]),
{
    let dim = ndarray::IxDyn(shape.as_slice());
    let a = ndarray::ArrayViewD::from_shape(dim.clone(), lhs.as_slice()).unwrap();
    let b = ndarray::ArrayViewD::from_shape(dim, rhs.as_slice()).unwrap();
    (&a * &b).iter().copied().collect()
}

/// `/` of `ndarray` on two `ArrayViewD`s, made by `from_shape` over the two
/// buffers in row-major order, with the result read off by `iter`. The
/// contract claims that the result has one element for each position, in
/// row-major order, and that this element is what `T`'s own `/` returns for
/// the two elements at that position. `ndarray` hands the operator a clone of
/// each element; the claim takes the clone of a `Copy` value to be that value.
#[verifier::external_body]
pub(crate) fn elementwise_div<T: Copy + core::ops::Div<Output = T>>(
    shape: &Vec<usize>,
    lhs: &Vec<T>,
    rhs: &Vec<T>,
) -> (out: Vec<T>)
    requires
        layout_ok(shape@, lhs@.len()),
        lhs@.len() == rhs@.len(),
        forall|i: int|
            0 <= i < lhs@.len() ==> call_requires(T::div, (#[trigger] lhs@[i], rhs@[i])),
    ensures
        out@.len() == lhs@.len(),
        forall|i: int|
            0 <= i < lhs@.len() ==> call_ensures(T::div, (lhs@[i], rhs@[i]), #[trigger] out@[i]),
{
    let dim = ndarray::IxDyn(shape.as_slice());
    let a = ndarray::ArrayViewD::from_shape(dim.clone(), lhs.as_slice()).unwrap();
    let b = ndarray::ArrayViewD::from_shape(dim, rhs.as_slice()).unwrap();
    (&a / &b).iter().copied().collect()
}

} // verus!
