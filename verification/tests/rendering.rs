use matchbox::{DenseArray, IdCounter, Operator, Tensor, TensorError};

fn leaf(ids: &mut IdCounter) -> Tensor<f64> {
    Tensor::from_vec(vec![1., 2., 3., 4.], vec![2, 2], false, ids).unwrap()
}

#[test]
fn operators_are_named() {
    let mut ids = IdCounter::new();
    let a = leaf(&mut ids);
    let b = leaf(&mut ids);
    assert_eq!(Operator::Add(a.clone(), b.clone()).to_string(), "Add");
    assert_eq!(Operator::Sub(a.clone(), b.clone()).to_string(), "Sub");
    assert_eq!(Operator::Mul(a.clone(), b.clone()).to_string(), "Mul");
    assert_eq!(Operator::Div(a.clone(), b.clone()).to_string(), "Div");
    assert_eq!(Operator::MatMul(a.clone(), b.clone()).to_string(), "MatMul");
    assert_eq!(Operator::ScalarMul(a.clone(), 2.).to_string(), "Scalar multiplication");
    assert_eq!(Operator::Pow(a.clone(), 2.).to_string(), "Scalar exponentiation");
    assert_eq!(Operator::Sigmoid(a.clone()).to_string(), "Sigmoid activation");
    assert_eq!(Operator::ReLU(a.clone()).to_string(), "ReLU activation");
}

#[test]
fn operators_with_axes_show_them() {
    let mut ids = IdCounter::new();
    let a = leaf(&mut ids);
    let axes: Vec<usize> = vec![0, 1];
    assert_eq!(
        Operator::Sum(a.clone(), axes.clone()).to_string(),
        format!("Sum over axes: {:?}", axes)
    );
    assert_eq!(Operator::Sum(a.clone(), axes.clone()).to_string(), "Sum over axes: [0, 1]");
    assert_eq!(Operator::Mean(a.clone(), vec![1]).to_string(), "Mean over axes: [1]");
    assert_eq!(Operator::Transpose(a.clone(), vec![1, 0]).to_string(), "Transpose axes: [1, 0]");
    assert_eq!(
        Operator::Broadcast(a.clone(), vec![3, 2, 2]).to_string(),
        "Broadcast to shape: [3, 2, 2]"
    );
    assert_eq!(Operator::Mean(a.clone(), vec![]).to_string(), "Mean over axes: []");
}

#[test]
fn numbers_are_shown_in_decimal() {
    let mut ids = IdCounter::new();
    let a = leaf(&mut ids);
    let sizes: Vec<usize> = vec![0, 9, 10, 99, 100, 1234567890, usize::MAX];
    assert_eq!(
        Operator::Broadcast(a, sizes.clone()).to_string(),
        format!("Broadcast to shape: {:?}", sizes)
    );
}

#[test]
fn shape_mismatch_message() {
    let mut ids = IdCounter::new();
    let a = Tensor::from_vec(vec![1.; 14], vec![7, 2], false, &mut ids).unwrap();
    let b = Tensor::from_vec(vec![1.; 14], vec![2, 7], false, &mut ids).unwrap();
    let e = a.add(&b, &mut ids).err().unwrap();
    assert_eq!(
        e.to_string(),
        "Shape mismatch error during [Add] operation: shape [7, 2] of self does not match shape [2, 7] of other\n"
    );
    let e = a.div(&b, &mut ids).err().unwrap();
    assert_eq!(
        e.to_string(),
        format!(
            "Shape mismatch error during [{}] operation: shape {:?} of self does not match shape {:?} of other\n",
            "Div",
            a.shape(),
            b.shape()
        )
    );
}

#[test]
fn broadcast_message() {
    let e = TensorError::BroadCastError { got_shape: vec![3, 1], expected_shape: vec![2, 2] };
    assert_eq!(e.to_string(), "Broadcast error: could not broadcast shape [3, 1] into shape [2, 2]\n");
}

#[test]
fn a_leaf_is_listed_on_one_line() {
    let mut ids = IdCounter::new();
    let a = Tensor::from_vec(vec![1., 2., 3.], vec![3], true, &mut ids).unwrap();
    assert_eq!(a.print_comp_tree(), " tensor id: 1, use grad: true, shape: [3]\n");
}

#[test]
fn operands_are_listed_below_their_result() {
    let mut ids = IdCounter::new();
    let a = leaf(&mut ids);
    let b = leaf(&mut ids);
    let c = a.add(&b, &mut ids).unwrap();
    assert_eq!(
        c.print_comp_tree(),
        concat_lines(&[
            " tensor id: 3, use grad: false, shape: [2, 2] with op: Add",
            "    tensor id: 1, use grad: false, shape: [2, 2]",
            "    tensor id: 2, use grad: false, shape: [2, 2]",
        ])
    );
}

#[test]
fn deeper_graphs_are_listed_left_before_right() {
    let mut ids = IdCounter::new();
    let a = leaf(&mut ids);
    let b = Tensor::from_vec(vec![1., 2., 3., 4.], vec![2, 2], true, &mut ids).unwrap();
    let c = a.sub(&b, &mut ids).unwrap();
    let d = c.mul(&a, &mut ids).unwrap();
    let data = DenseArray::from_shape_vec(vec![2], vec![0., 0.]).unwrap();
    let e = Tensor::new(data, Some(Operator::Sum(d.clone(), vec![1])), true, &mut ids);
    assert_eq!(
        e.print_comp_tree(),
        concat_lines(&[
            " tensor id: 5, use grad: true, shape: [2] with op: Sum over axes: [1]",
            "    tensor id: 4, use grad: true, shape: [2, 2] with op: Mul",
            "        tensor id: 3, use grad: true, shape: [2, 2] with op: Sub",
            "            tensor id: 1, use grad: false, shape: [2, 2]",
            "            tensor id: 2, use grad: true, shape: [2, 2]",
            "        tensor id: 1, use grad: false, shape: [2, 2]",
        ])
    );
}

fn concat_lines(lines: &[&str]) -> String {
    let mut text = String::new();
    for line in lines {
        text.push_str(line);
        text.push('\n');
    }
    text
}

#[test]
fn text_is_appended_piece_by_piece() {
    let mut out = String::from("n=");
    matchbox::text::push_decimal(&mut out, 0);
    out.push(',');
    matchbox::text::push_decimal(&mut out, 40960);
    out.push(',');
    matchbox::text::push_decimal(&mut out, usize::MAX);
    assert_eq!(out, format!("n=0,40960,{}", usize::MAX));

    let mut out = String::new();
    matchbox::text::push_bool(&mut out, true);
    matchbox::text::push_bool(&mut out, false);
    assert_eq!(out, "truefalse");

    let mut out = String::from("shape ");
    matchbox::text::push_list(&mut out, &[]);
    matchbox::text::push_list(&mut out, &[5]);
    matchbox::text::push_list(&mut out, &[5, 0, 12]);
    assert_eq!(out, "shape [][5][5, 0, 12]");
}
