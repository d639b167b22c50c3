use libsvm::{DataVec, Double, SvmError, SvmNode};

fn d(x: f64) -> Double {
    Double::from_bits(x.to_bits())
}

fn node(index: i32, value: f64) -> SvmNode {
    SvmNode(index, d(value))
}

fn nodes_of(v: &DataVec) -> Vec<SvmNode> {
    v.iter().copied().collect()
}

#[test]
fn from_dense_drops_zeros_and_counts_from_one() {
    let v = DataVec::from_dense(vec![d(3.0), d(0.0), d(0.0), d(9.2)]);
    assert_eq!(nodes_of(&v), vec![node(1, 3.0), node(4, 9.2), node(-1, 0.0)]);
    assert!(!v.needs_resort());
}

#[test]
fn from_dense_of_nothing_is_the_terminator() {
    let v = DataVec::from_dense(Vec::new());
    assert_eq!(nodes_of(&v), vec![node(-1, 0.0)]);
}

#[test]
fn from_dense_of_zeros_is_the_terminator() {
    let v = DataVec::from_dense(vec![d(0.0), d(-0.0), d(0.0)]);
    assert_eq!(nodes_of(&v), vec![node(-1, 0.0)]);
}

#[test]
fn from_dense_keeps_what_is_close_to_zero() {
    let v = DataVec::from_dense(vec![d(1e-300), d(0.0), d(-1e-300), d(f64::NAN)]);
    assert_eq!(v.len(), 4);
    assert_eq!(v[0], node(1, 1e-300));
    assert_eq!(v[1], node(3, -1e-300));
    assert_eq!(v[2].0, 4);
    assert!(f64::from_bits(v[2].1.to_bits()).is_nan());
    assert_eq!(v[3], node(-1, 0.0));
}

#[test]
fn from_dense_has_one_node_for_each_nonzero() {
    let dense: Vec<f64> = vec![0.5, 0.0, 2.5, 0.0, 0.0, -1.0, 7.0, 0.0];
    let v = DataVec::from_dense(dense.iter().map(|x| d(*x)).collect());
    let nonzero = dense.iter().filter(|x| **x != 0.0).count();
    assert_eq!(v.len(), nonzero + 1);
    for i in 0..v.len() - 1 {
        let SvmNode(index, value) = v[i];
        assert!(index >= 1);
        assert_eq!(f64::from_bits(value.to_bits()), dense[(index - 1) as usize]);
        if i > 0 {
            assert!(v[i - 1].0 < index);
        }
    }
    assert_eq!(v[v.len() - 1], node(-1, 0.0));
}

#[test]
fn from_sparse_sorts_and_ends_with_the_terminator() {
    let v = DataVec::from_sparse(vec![node(4, 9.2), node(-1, 0.0), node(1, 3.4)]).unwrap();
    assert_eq!(nodes_of(&v), vec![node(1, 3.4), node(4, 9.2), node(-1, 0.0)]);
    assert!(!v.needs_resort());
}

#[test]
fn from_sparse_appends_a_missing_terminator() {
    let v = DataVec::from_sparse(vec![node(2, 1.5), node(1, 3.4)]).unwrap();
    assert_eq!(nodes_of(&v), vec![node(1, 3.4), node(2, 1.5), node(-1, 0.0)]);
}

#[test]
fn from_sparse_leaves_sorted_input_alone() {
    let input = vec![node(1, 3.4), node(4, 9.2), node(-1, 0.0)];
    let v = DataVec::from_sparse(input.clone()).unwrap();
    assert_eq!(nodes_of(&v), input);
}

#[test]
fn from_sparse_of_nothing_is_the_terminator() {
    let v = DataVec::from_sparse(Vec::new()).unwrap();
    assert_eq!(nodes_of(&v), vec![node(-1, 0.0)]);
}

#[test]
fn from_sparse_keeps_one_terminator_the_first() {
    let v = DataVec::from_sparse(vec![
        node(-1, 5.0),
        node(3, 1.0),
        node(-1, 6.0),
        node(2, 2.0),
        node(-1, 7.0),
    ]).unwrap();
    assert_eq!(nodes_of(&v), vec![node(2, 2.0), node(3, 1.0), node(-1, 5.0)]);
}

#[test]
fn from_sparse_keeps_equal_indices_in_their_order() {
    let v = DataVec::from_sparse(vec![
        node(5, 1.0),
        node(2, 2.0),
        node(5, 3.0),
        node(2, 4.0),
        node(5, 5.0),
    ]).unwrap();
    assert_eq!(
        nodes_of(&v),
        vec![node(2, 2.0), node(2, 4.0), node(5, 1.0), node(5, 3.0), node(5, 5.0), node(-1, 0.0)]
    );
}

#[test]
fn from_sparse_sorts_any_order_alike() {
    let expected = vec![node(1, 1.0), node(2, 2.0), node(3, 3.0), node(4, 4.0), node(-1, 0.0)];
    let orders: Vec<Vec<i32>> = vec![
        vec![1, 2, 3, 4],
        vec![4, 3, 2, 1],
        vec![2, 4, 1, 3],
        vec![3, 1, 4, 2],
        vec![1, 4, 2, 3],
    ];
    for order in orders {
        let input: Vec<SvmNode> = order.iter().map(|i| node(*i, *i as f64)).collect();
        let v = DataVec::from_sparse(input).unwrap();
        assert_eq!(nodes_of(&v), expected);
    }
}

#[test]
fn from_sparse_refuses_index_zero() {
    let r = DataVec::from_sparse(vec![node(4, 9.2), node(0, 1.0), node(1, 3.4)]);
    assert_eq!(r.unwrap_err(), SvmError::InvalidIndex { position: 1, index: 0 });
}

#[test]
fn from_sparse_refuses_index_minus_two() {
    let r = DataVec::from_sparse(vec![node(-2, 9.2)]);
    assert_eq!(r.unwrap_err(), SvmError::InvalidIndex { position: 0, index: -2 });
}

#[test]
fn from_sparse_reports_the_first_invalid_index() {
    let r = DataVec::from_sparse(vec![node(1, 1.0), node(-1, 0.0), node(-7, 1.0), node(0, 1.0)]);
    assert_eq!(r.unwrap_err(), SvmError::InvalidIndex { position: 2, index: -7 });
    let r = DataVec::from_sparse(vec![node(i32::MIN, 1.0), node(i32::MAX, 1.0)]);
    assert_eq!(r.unwrap_err(), SvmError::InvalidIndex { position: 0, index: i32::MIN });
}

#[test]
fn from_sparse_takes_the_largest_index() {
    let v = DataVec::from_sparse(vec![node(i32::MAX, 1.0), node(1, 2.0)]).unwrap();
    assert_eq!(nodes_of(&v), vec![node(1, 2.0), node(i32::MAX, 1.0), node(-1, 0.0)]);
}

#[test]
fn sort_works_in_place() {
    let mut x = vec![node(4, 9.2), node(-1, 0.0), node(1, 3.4)];
    assert_eq!(DataVec::sort(&mut x), Ok(()));
    assert_eq!(x, vec![node(1, 3.4), node(4, 9.2), node(-1, 0.0)]);
}

#[test]
fn sort_leaves_invalid_input_as_it_is() {
    let mut x = vec![node(4, 9.2), node(0, 0.0), node(1, 3.4)];
    assert_eq!(DataVec::sort(&mut x), Err(SvmError::InvalidIndex { position: 1, index: 0 }));
    assert_eq!(x, vec![node(4, 9.2), node(0, 0.0), node(1, 3.4)]);
}

#[test]
fn editing_marks_the_vector_dirty() {
    let mut v = DataVec::from_dense(vec![d(3.0), d(0.0), d(9.2)]);
    assert!(!v.needs_resort());
    assert_eq!(v.len(), 3);
    assert!(!v.needs_resort());
    v.push(node(2, 1.0));
    assert!(v.needs_resort());
    assert_eq!(
        nodes_of(&v),
        vec![node(1, 3.0), node(3, 9.2), node(-1, 0.0), node(2, 1.0)]
    );
}

#[test]
fn resort_restores_the_normal_form() {
    let mut v = DataVec::from_dense(vec![d(3.0), d(0.0), d(9.2)]);
    v.push(node(2, 1.0));
    assert_eq!(v.resort(), Ok(()));
    assert!(!v.needs_resort());
    assert_eq!(
        nodes_of(&v),
        vec![node(1, 3.0), node(2, 1.0), node(3, 9.2), node(-1, 0.0)]
    );
}

#[test]
fn resort_twice_is_resort_once() {
    let mut v = DataVec::from_sparse(vec![node(7, 1.0), node(3, 2.0)]).unwrap();
    v[0] = node(9, 4.0);
    v.push(node(1, 5.0));
    v.push(node(-1, 8.0));
    assert_eq!(v.resort(), Ok(()));
    let once = nodes_of(&v);
    assert_eq!(once, vec![node(1, 5.0), node(7, 1.0), node(9, 4.0), node(-1, 0.0)]);
    assert_eq!(v.resort(), Ok(()));
    assert_eq!(nodes_of(&v), once);
    v.len();
    let _ = &mut v[0];
    assert!(v.needs_resort());
    assert_eq!(v.resort(), Ok(()));
    assert_eq!(nodes_of(&v), once);
}

#[test]
fn resort_leaves_a_clean_vector_alone() {
    let mut v = DataVec::from_sparse(vec![node(2, 1.0), node(1, 2.0)]).unwrap();
    let before = nodes_of(&v);
    assert_eq!(v.resort(), Ok(()));
    assert_eq!(nodes_of(&v), before);
    assert!(!v.needs_resort());
}

#[test]
fn resort_reports_an_invalid_edit_and_stays_dirty() {
    let mut v = DataVec::from_dense(vec![d(3.0), d(9.2)]);
    v[1] = node(0, 9.2);
    let before = nodes_of(&v);
    assert_eq!(v.resort(), Err(SvmError::InvalidIndex { position: 1, index: 0 }));
    assert!(v.needs_resort());
    assert_eq!(nodes_of(&v), before);
    v[1] = node(2, 9.2);
    assert_eq!(v.resort(), Ok(()));
    assert_eq!(nodes_of(&v), vec![node(1, 3.0), node(2, 9.2), node(-1, 0.0)]);
}

#[test]
fn clone_copies_nodes_and_state() {
    let mut v = DataVec::from_dense(vec![d(3.0), d(9.2)]);
    let clean = v.clone();
    assert_eq!(nodes_of(&clean), nodes_of(&v));
    assert!(!clean.needs_resort());
    v.push(node(5, 1.0));
    let dirty = v.clone();
    assert_eq!(nodes_of(&dirty), nodes_of(&v));
    assert!(dirty.needs_resort());
    assert_eq!(clean.len(), 3);
}

#[test]
fn merge_takes_the_first_run_first_on_equal_indices() {
    let a = vec![node(1, 1.0), node(3, 2.0), node(3, 3.0), node(8, 4.0)];
    let b = vec![node(2, 5.0), node(3, 6.0), node(9, 7.0)];
    assert_eq!(
        libsvm::sort::merge(&a, &b),
        vec![
            node(1, 1.0),
            node(2, 5.0),
            node(3, 2.0),
            node(3, 3.0),
            node(3, 6.0),
            node(8, 4.0),
            node(9, 7.0),
        ]
    );
    assert_eq!(libsvm::sort::merge(&a, &Vec::new()), a);
    assert_eq!(libsvm::sort::merge(&Vec::new(), &b), b);
    assert_eq!(libsvm::sort::merge(&Vec::new(), &Vec::new()), Vec::new());
}

#[test]
fn merge_sort_sorts_a_part() {
    let v = vec![node(9, 1.0), node(5, 2.0), node(7, 3.0), node(5, 4.0), node(1, 5.0)];
    assert_eq!(
        libsvm::sort::merge_sort(&v, 1, 4),
        vec![node(5, 2.0), node(5, 4.0), node(7, 3.0)]
    );
    assert_eq!(libsvm::sort::merge_sort(&v, 2, 2), Vec::new());
    assert_eq!(libsvm::sort::merge_sort(&v, 4, 5), vec![node(1, 5.0)]);
    assert_eq!(
        libsvm::sort::merge_sort(&v, 0, 5),
        vec![node(1, 5.0), node(5, 2.0), node(5, 4.0), node(7, 3.0), node(9, 1.0)]
    );
}

#[test]
fn from_sparse_agrees_with_a_stable_sort() {
    let mut state: u64 = 0x9e3779b97f4a7c15;
    for round in 0..40 {
        let len = (round * 7) % 60;
        let mut input: Vec<SvmNode> = Vec::new();
        for position in 0..len {
            state = state.wrapping_mul(6364136223846793005).wrapping_add(1442695040888963407);
            let draw = (state >> 33) % 20;
            let index = if draw == 0 { -1 } else { draw as i32 };
            input.push(node(index, position as f64));
        }
        let mut expected: Vec<SvmNode> = input.iter().copied().filter(|n| n.0 != -1).collect();
        expected.sort_by_key(|n| n.0);
        match input.iter().find(|n| n.0 == -1) {
            Some(first) => expected.push(*first),
            None => expected.push(node(-1, 0.0)),
        }
        let v = DataVec::from_sparse(input).unwrap();
        assert_eq!(nodes_of(&v), expected);
    }
}

#[test]
fn mark_dirty_keeps_the_nodes() {
    let mut v = DataVec::from_dense(vec![d(3.0), d(9.2)]);
    let before = nodes_of(&v);
    v.mark_dirty();
    assert!(v.needs_resort());
    assert_eq!(nodes_of(&v), before);
    assert_eq!(v.resort(), Ok(()));
    assert!(!v.needs_resort());
    assert_eq!(nodes_of(&v), before);
}

#[test]
fn from_sparse_sorts_a_long_vector_in_reverse() {
    let n: i32 = 200_000;
    let input: Vec<SvmNode> = (0..n).map(|i| node(n - i, i as f64)).collect();
    let v = DataVec::from_sparse(input).unwrap();
    assert_eq!(v.len(), n as usize + 1);
    for i in 0..n as usize {
        assert_eq!(v[i], node(i as i32 + 1, (n as usize - 1 - i) as f64));
    }
    assert_eq!(v[n as usize], node(-1, 0.0));
}
