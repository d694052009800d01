use matchbox::{IdCounter, Operator, Tensor, TensorError};

fn pair(ids: &mut IdCounter) -> (Tensor<f64>, Tensor<f64>) {
    let a = Tensor::from_vec(vec![8., -6., 0.5, 3.], vec![2, 2], false, ids).unwrap();
    let b = Tensor::from_vec(vec![2., 3., 4., -1.5], vec![2, 2], true, ids).unwrap();
    (a, b)
}

#[test]
fn add_gives_the_sum_at_each_position() {
    let mut ids = IdCounter::new();
    let (a, b) = pair(&mut ids);
    let c = a.add(&b, &mut ids).unwrap();
    assert_eq!(c.data().as_slice(), [10., -3., 4.5, 1.5]);
    assert_eq!(c.shape(), [2, 2]);
    assert!(matches!(c.op(), Some(Operator::Add(_, _))));
}

#[test]
fn sub_gives_the_difference_at_each_position() {
    let mut ids = IdCounter::new();
    let (a, b) = pair(&mut ids);
    let c = a.sub(&b, &mut ids).unwrap();
    assert_eq!(c.data().as_slice(), [6., -9., -3.5, 4.5]);
    assert!(matches!(c.op(), Some(Operator::Sub(_, _))));
}

#[test]
fn mul_gives_the_product_at_each_position() {
    let mut ids = IdCounter::new();
    let (a, b) = pair(&mut ids);
    let c = a.mul(&b, &mut ids).unwrap();
    assert_eq!(c.data().as_slice(), [16., -18., 2., -4.5]);
    assert!(matches!(c.op(), Some(Operator::Mul(_, _))));
}

#[test]
fn div_gives_the_quotient_at_each_position() {
    let mut ids = IdCounter::new();
    let (a, b) = pair(&mut ids);
    let c = a.div(&b, &mut ids).unwrap();
    assert_eq!(c.data().as_slice(), [4., -2., 0.125, -2.]);
    assert!(matches!(c.op(), Some(Operator::Div(_, _))));
}

#[test]
fn integer_elements_are_handled_alike() {
    let mut ids = IdCounter::new();
    let a = Tensor::<i64>::from_vec(vec![1, 2, 3, 4, 5, 6], vec![3, 2], false, &mut ids).unwrap();
    let b = Tensor::<i64>::from_vec(vec![6, 5, 4, 3, 2, 1], vec![3, 2], false, &mut ids).unwrap();
    assert_eq!(a.add(&b, &mut ids).unwrap().data().as_slice(), [7, 7, 7, 7, 7, 7]);
    assert_eq!(a.sub(&b, &mut ids).unwrap().data().as_slice(), [-5, -3, -1, 1, 3, 5]);
    assert_eq!(a.mul(&b, &mut ids).unwrap().data().as_slice(), [6, 10, 12, 12, 10, 6]);
    assert_eq!(b.div(&a, &mut ids).unwrap().data().as_slice(), [6, 2, 1, 0, 0, 0]);
}

#[test]
fn result_is_tracked_when_an_operand_is() {
    let mut ids = IdCounter::new();
    for (left, right) in [(false, false), (false, true), (true, false), (true, true)] {
        let a = Tensor::from_vec(vec![1., 2.], vec![2], left, &mut ids).unwrap();
        let b = Tensor::from_vec(vec![3., 4.], vec![2], right, &mut ids).unwrap();
        assert_eq!(a.add(&b, &mut ids).unwrap().requires_grad(), left || right);
        assert_eq!(a.sub(&b, &mut ids).unwrap().requires_grad(), left || right);
        assert_eq!(a.mul(&b, &mut ids).unwrap().requires_grad(), left || right);
        assert_eq!(a.div(&b, &mut ids).unwrap().requires_grad(), left || right);
    }
}

fn expect_mismatch(r: Result<Tensor<f64>, TensorError>, name: &str) {
    match r {
        Err(TensorError::ShapeMismatchError { a_shape, b_shape, op }) => {
            assert_eq!(a_shape, vec![7, 2]);
            assert_eq!(b_shape, vec![2, 7]);
            assert_eq!(op, name);
        }
        _ => panic!("expected a shape mismatch"),
    }
}

#[test]
fn operands_of_different_shapes_are_refused() {
    let mut ids = IdCounter::new();
    let a = Tensor::from_vec(vec![1.; 14], vec![7, 2], false, &mut ids).unwrap();
    let b = Tensor::from_vec(vec![1.; 14], vec![2, 7], false, &mut ids).unwrap();
    let next = ids.peek();
    expect_mismatch(a.add(&b, &mut ids), "Add");
    expect_mismatch(a.sub(&b, &mut ids), "Sub");
    expect_mismatch(a.mul(&b, &mut ids), "Mul");
    expect_mismatch(a.div(&b, &mut ids), "Div");
    assert_eq!(ids.peek(), next);
}

#[test]
fn shapes_of_different_rank_are_refused() {
    let mut ids = IdCounter::new();
    let a = Tensor::from_vec(vec![1.; 4], vec![4], false, &mut ids).unwrap();
    let b = Tensor::from_vec(vec![1.; 4], vec![4, 1], false, &mut ids).unwrap();
    assert!(a.add(&b, &mut ids).is_err());
    assert!(b.mul(&a, &mut ids).is_err());
}

#[test]
fn operands_stay_as_they_were() {
    let mut ids = IdCounter::new();
    let (a, b) = pair(&mut ids);
    let c = a.mul(&b, &mut ids).unwrap();
    assert_eq!(a.id(), 1);
    assert_eq!(a.shape(), [2, 2]);
    assert_eq!(a.data().as_slice(), [8., -6., 0.5, 3.]);
    assert_eq!(b.id(), 2);
    assert_eq!(b.data().as_slice(), [2., 3., 4., -1.5]);
    match c.op() {
        Some(Operator::Mul(l, r)) => {
            assert_eq!(l.id(), a.id());
            assert_eq!(r.id(), b.id());
            assert_eq!(l.data(), a.data());
            assert_eq!(r.data(), b.data());
        }
        _ => panic!("expected a product"),
    }
}

#[test]
fn empty_tensors_add_to_an_empty_tensor() {
    let mut ids = IdCounter::new();
    let a = Tensor::<f64>::from_vec(vec![], vec![3, 0], false, &mut ids).unwrap();
    let b = Tensor::<f64>::from_vec(vec![], vec![3, 0], false, &mut ids).unwrap();
    let c = a.add(&b, &mut ids).unwrap();
    assert!(c.is_empty());
    assert_eq!(c.len(), 0);
    assert_eq!(c.shape(), [3, 0]);
}

#[test]
fn scalars_add() {
    let mut ids = IdCounter::new();
    let a = Tensor::from_vec(vec![1.5], vec![], false, &mut ids).unwrap();
    let b = Tensor::from_vec(vec![2.25], vec![], false, &mut ids).unwrap();
    let c = a.add(&b, &mut ids).unwrap();
    assert_eq!(c.ndim(), 0);
    assert_eq!(c.len(), 1);
    assert_eq!(c.data().as_slice(), [3.75]);
}
