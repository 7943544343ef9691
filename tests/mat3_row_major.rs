use del_geo_core::mat3_row_major::{
    correct_handedness, orient_third_axis,
    determinant, from_columns, from_identity, mult_column, mult_mat_row_major,
    normal_matrix_packed, reflect_third_axis, sort_eigen, sorted_eigen_pairs, squared_norm, sub,
    transpose, ConvergenceError, Mat3RowMajor,
};

#[test]
fn determinant_of_diagonal_and_general_matrices() {
    assert_eq!(determinant(&[2i64, 0, 0, 0, 3, 0, 0, 0, 4]), 24);
    assert_eq!(determinant(&[1i64, 2, 3, 4, 5, 6, 7, 8, 10]), -3);
    assert_eq!(determinant(&[1i64, 2, 3, 4, 5, 6, 7, 8, 9]), 0);
    assert_eq!(determinant(&[0.0f64, 1.0, 0.0, 1.0, 0.0, 0.0, 0.0, 0.0, 1.0]), -1.0);
}

#[test]
fn squared_norm_sums_all_squares() {
    assert_eq!(squared_norm(&[1i64, 2, 3, 4, 5, 6, 7, 8, 9]), 285);
    assert_eq!(squared_norm(&[0.5f64, 0., 0., 0., 0., 0., 0., 0., -2.0]), 4.25);
}

#[test]
fn transpose_swaps_rows_and_columns() {
    assert_eq!(transpose(&[1, 2, 3, 4, 5, 6, 7, 8, 9]), [1, 4, 7, 2, 5, 8, 3, 6, 9]);
}

#[test]
fn product_of_matrices() {
    let a = [1i64, 2, 3, 4, 5, 6, 7, 8, 9];
    let id = from_identity::<i64>();
    assert_eq!(mult_mat_row_major(&a, &id), a);
    assert_eq!(mult_mat_row_major(&id, &a), a);
    let b = [0i64, 1, 0, 0, 0, 1, 1, 0, 0];
    assert_eq!(mult_mat_row_major(&a, &b), [3, 1, 2, 6, 4, 5, 9, 7, 8]);
    assert_eq!(
        mult_mat_row_major(&a, &a),
        [30, 36, 42, 66, 81, 96, 102, 126, 150]
    );
}

#[test]
fn difference_of_matrices() {
    let a = [1i64, 2, 3, 4, 5, 6, 7, 8, 9];
    assert_eq!(sub(&a, &a), [0; 9]);
    assert_eq!(sub(&a, &from_identity()), [0, 2, 3, 4, 4, 6, 7, 8, 8]);
}

#[test]
fn identity_matrix() {
    assert_eq!(from_identity::<i32>(), [1, 0, 0, 0, 1, 0, 0, 0, 1]);
    assert_eq!(from_identity::<f64>(), [1., 0., 0., 0., 1., 0., 0., 0., 1.]);
}

#[test]
fn trait_methods_agree_with_functions() {
    let a = [1i64, 2, 3, 4, 5, 6, 7, 8, 10];
    let b = [0i64, 1, 0, 0, 0, 1, 1, 0, 0];
    assert_eq!(<[i64; 9] as Mat3RowMajor<i64>>::from_identity(), [1, 0, 0, 0, 1, 0, 0, 0, 1]);
    assert_eq!(Mat3RowMajor::determinant(&a), -3);
    assert_eq!(Mat3RowMajor::squared_norm(&a), 304);
    assert_eq!(Mat3RowMajor::transpose(&a), [1, 4, 7, 2, 5, 8, 3, 6, 10]);
    assert_eq!(Mat3RowMajor::mult_mat_row_major(&a, &b), [3, 1, 2, 6, 4, 5, 10, 7, 8]);
    assert_eq!(Mat3RowMajor::sub(&a, &b), [1, 1, 3, 4, 5, 5, 6, 8, 10]);
}

#[test]
fn sort_eigen_orders_descending_and_moves_columns() {
    let mut g = [1.0f64, 3.0, 2.0];
    let mut v = [10.0, 11.0, 12.0, 20.0, 21.0, 22.0, 30.0, 31.0, 32.0];
    sort_eigen(&mut g, &mut v);
    assert_eq!(g, [3.0, 2.0, 1.0]);
    assert_eq!(v, [11.0, 12.0, 10.0, 21.0, 22.0, 20.0, 31.0, 32.0, 30.0]);
}

#[test]
fn sort_eigen_every_order_of_three_distinct_values() {
    let orders = [[0, 1, 2], [0, 2, 1], [1, 0, 2], [1, 2, 0], [2, 0, 1], [2, 1, 0]];
    for p in orders {
        let mut g = [p[0] as i64, p[1] as i64, p[2] as i64];
        // column j of v carries the label of g[j]
        let mut v = [0i64; 9];
        for r in 0..3 {
            for j in 0..3 {
                v[3 * r + j] = 10 * g[j] + r as i64;
            }
        }
        sort_eigen(&mut g, &mut v);
        assert_eq!(g, [2, 1, 0]);
        for r in 0..3 {
            for j in 0..3 {
                assert_eq!(v[3 * r + j], 10 * g[j] + r as i64);
            }
        }
    }
}

#[test]
fn sort_eigen_keeps_sorted_and_equal_values() {
    let mut g = [3i64, 2, 1];
    let mut v = [1i64, 2, 3, 4, 5, 6, 7, 8, 9];
    sort_eigen(&mut g, &mut v);
    assert_eq!(g, [3, 2, 1]);
    assert_eq!(v, [1, 2, 3, 4, 5, 6, 7, 8, 9]);

    let mut g = [1i64, 1, 1];
    sort_eigen(&mut g, &mut v);
    assert_eq!(g, [1, 1, 1]);
    assert_eq!(v, [1, 2, 3, 4, 5, 6, 7, 8, 9]);

    let mut g = [0i64, 5, 5];
    sort_eigen(&mut g, &mut v);
    assert_eq!(g, [5, 5, 0]);
    assert_eq!(v, [2, 3, 1, 5, 6, 4, 8, 9, 7]);
}

#[test]
fn normal_matrix_of_diagonal_and_general_matrices() {
    assert_eq!(normal_matrix_packed(&[3i64, 0, 0, 0, 2, 0, 0, 0, 1]), [9, 4, 1, 0, 0, 0]);
    // columns (1, 4, 7), (2, 5, 8), (3, 6, 9)
    assert_eq!(
        normal_matrix_packed(&[1i64, 2, 3, 4, 5, 6, 7, 8, 9]),
        [66, 93, 126, 108, 90, 78]
    );
    assert_eq!(normal_matrix_packed(&[0.0f64; 9]), [0.0; 6]);
}

#[test]
fn mult_column_takes_a_column_of_v() {
    let m = [1i64, 2, 3, 4, 5, 6, 7, 8, 9];
    let v = [1i64, 0, 0, 0, 0, 1, 0, 1, 0];
    assert_eq!(mult_column(&m, &v, 0), [1, 4, 7]);
    assert_eq!(mult_column(&m, &v, 1), [3, 6, 9]);
    assert_eq!(mult_column(&m, &v, 2), [2, 5, 8]);
}

#[test]
fn from_columns_places_columns() {
    assert_eq!(
        from_columns(&[1, 2, 3], &[4, 5, 6], &[7, 8, 9]),
        [1, 4, 7, 2, 5, 8, 3, 6, 9]
    );
}

#[test]
fn reflect_third_axis_makes_determinant_positive() {
    let mut v = [1i64, 0, 0, 0, 1, 0, 0, 0, -1];
    let mut g = [3i64, 2, 1];
    assert_eq!(determinant(&v), -1);
    reflect_third_axis(&mut v, &mut g);
    assert_eq!(v, [1, 0, 0, 0, 1, 0, 0, 0, 1]);
    assert_eq!(g, [3, 2, -1]);
    assert_eq!(determinant(&v), 1);

    let mut v = [0.0f64, 1.0, 2.0, 3.0, 4.0, 5.0, 6.0, 7.0, 8.0];
    let mut g = [1.0f64, 0.5, 0.25];
    reflect_third_axis(&mut v, &mut g);
    assert_eq!(v, [0.0, 1.0, -2.0, 3.0, 4.0, -5.0, 6.0, 7.0, -8.0]);
    assert_eq!(g, [1.0, 0.5, -0.25]);
}

#[test]
fn cross_completion_is_right_handed_and_orthogonal() {
    let a = [1i64, 2, 3];
    let b = [-2i64, 0, 5];
    let c = del_geo_core::vec3::cross(&a, &b);
    assert_eq!(c, [10, -11, 4]);
    assert_eq!(del_geo_core::vec3::dot(&a, &c), 0);
    assert_eq!(del_geo_core::vec3::dot(&b, &c), 0);
    let m = from_columns(&a, &b, &c);
    assert_eq!(determinant(&m), del_geo_core::vec3::dot(&c, &c));
    assert!(determinant(&m) > 0);
}

#[test]
fn reflection_keeps_u_diag_g_vt() {
    let u = [0i64, 1, 0, 1, 0, 0, 0, 0, 1];
    let mut g = [3i64, 2, 1];
    let mut v = [1i64, 2, 3, 4, 5, 6, 7, 8, 9];
    let product = |u: &[i64; 9], g: &[i64; 3], v: &[i64; 9]| {
        let ug = mult_mat_row_major(u, &[g[0], 0, 0, 0, g[1], 0, 0, 0, g[2]]);
        mult_mat_row_major(&ug, &transpose(v))
    };
    let before = product(&u, &g, &v);
    reflect_third_axis(&mut v, &mut g);
    assert_eq!(product(&u, &g, &v), before);
}

#[test]
fn eigen_failure_becomes_convergence_error() {
    assert_eq!(sorted_eigen_pairs::<f64>(None), Err(ConvergenceError));
}

#[test]
fn converged_eigen_pairs_come_out_sorted() {
    let v = [1.0f64, 0.0, 0.0, 0.0, 1.0, 0.0, 0.0, 0.0, 1.0];
    let g = [1.0f64, 9.0, 4.0];
    let (v, g) = sorted_eigen_pairs(Some((v, g))).unwrap();
    assert_eq!(g, [9.0, 4.0, 1.0]);
    assert_eq!(v, [0.0, 0.0, 1.0, 1.0, 0.0, 0.0, 0.0, 1.0, 0.0]);
}

#[test]
fn correct_handedness_flips_only_reflections() {
    let mut v = [0i64, 1, 0, 1, 0, 0, 0, 0, 1];
    let mut g = [3i64, 2, 1];
    correct_handedness(&mut v, &mut g);
    assert_eq!(v, [0, 1, 0, 1, 0, 0, 0, 0, -1]);
    assert_eq!(g, [3, 2, -1]);
    assert_eq!(determinant(&v), 1);

    correct_handedness(&mut v, &mut g);
    assert_eq!(v, [0, 1, 0, 1, 0, 0, 0, 0, -1]);
    assert_eq!(g, [3, 2, -1]);

    let mut v = [1.0f64, 0.0, 0.0, 0.0, 1.0, 0.0, 0.0, 0.0, -1.0];
    let mut g = [1.0f64, 1.0, 1.0];
    correct_handedness(&mut v, &mut g);
    assert_eq!(v, [1.0, 0.0, 0.0, 0.0, 1.0, 0.0, 0.0, 0.0, 1.0]);
    assert_eq!(g, [1.0, 1.0, -1.0]);
}

#[test]
fn orient_third_axis_follows_the_projected_column() {
    let mut g = [2i64, 1, 1];
    orient_third_axis(&mut g, &[0, 0, -3], &[0, 0, 1]);
    assert_eq!(g, [2, 1, -1]);
    orient_third_axis(&mut g, &[0, 0, 3], &[0, 0, 1]);
    assert_eq!(g, [2, 1, -1]);
    let mut g = [2.0f64, 1.0, 0.0];
    orient_third_axis(&mut g, &[0.0, 0.0, 0.0], &[0.0, 0.0, 1.0]);
    assert_eq!(g, [2.0, 1.0, 0.0]);
}
