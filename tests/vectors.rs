use del_geo_core::mat2x3_col_major::{mult_mat3_col_major, mult_vec3};
use del_geo_core::mat4::{diagonal, identity};
use del_geo_core::tri3::{emat_graph_laplacian, normal};
use del_geo_core::vec2::{self, Vec2, XY};
use del_geo_core::vec3::{cross, dot};

#[test]
fn vec2_add_and_sub() {
    assert_eq!(vec2::add(&[1, 2], &[10, 20]), [11, 22]);
    assert_eq!(vec2::sub(&[1, 2], &[10, 20]), [-9, -18]);
    assert_eq!(vec2::add(&[0.5f64, 1.0], &[0.25, -1.0]), [0.75, 0.0]);
    assert_eq!(vec2::sub(&[0.5f64, 1.0], &[0.25, -1.0]), [0.25, 2.0]);
    assert_eq!(Vec2::add(&[1i64, 2], &[3, 4]), [4, 6]);
    assert_eq!(Vec2::sub(&[1i64, 2], &[3, 4]), [-2, -2]);
}

#[test]
fn vec2_products() {
    assert_eq!(vec2::scale(&[1, -2], 3), [3, -6]);
    assert_eq!(vec2::dot(&[1, 2], &[3, 4]), 11);
    assert_eq!(vec2::squared_length(&[3, 4]), 25);
    assert_eq!(vec2::area_quadrilateral(&[1, 0], &[0, 1]), 1);
    assert_eq!(vec2::area_quadrilateral(&[0, 1], &[1, 0]), -1);
    assert_eq!(vec2::area_quadrilateral(&[2, 3], &[4, 5]), -2);
    assert_eq!(vec2::axpy(2, &[1, 2], &[10, 20]), [12, 24]);
}

#[test]
fn aabb_of_a_point() {
    let p = [3.5f64, -1.0];
    assert_eq!(XY { p: &p }.aabb(), [3.5, -1.0, 3.5, -1.0]);
    let q = [7i32, 9];
    assert_eq!(XY { p: &q }.aabb(), [7, 9, 7, 9]);
}

#[test]
fn vec3_cross_and_dot() {
    assert_eq!(cross(&[1, 0, 0], &[0, 1, 0]), [0, 0, 1]);
    assert_eq!(cross(&[0, 1, 0], &[1, 0, 0]), [0, 0, -1]);
    assert_eq!(cross(&[1, 2, 3], &[4, 5, 6]), [-3, 6, -3]);
    assert_eq!(dot(&[1, 2, 3], &[4, 5, 6]), 32);
}

#[test]
fn triangle_normal() {
    assert_eq!(normal(&[0, 0, 0], &[1, 0, 0], &[0, 1, 0]), [0, 0, 1]);
    assert_eq!(normal(&[1, 1, 1], &[3, 1, 1], &[1, 4, 1]), [0, 0, 6]);
    assert_eq!(normal(&[0.0f64, 0.0, 0.0], &[0.0, 1.0, 0.0], &[1.0, 0.0, 0.0]), [0.0, 0.0, -1.0]);
}

#[test]
fn graph_laplacian_element_matrix() {
    let e = emat_graph_laplacian(3i64);
    for i in 0..3 {
        for j in 0..3 {
            assert_eq!(e[i][j][0], if i == j { 6 } else { -3 });
        }
    }
    let e = emat_graph_laplacian(0.5f64);
    assert_eq!(e[0][0][0], 1.0);
    assert_eq!(e[2][1][0], -0.5);
}

#[test]
fn mat2x3_products() {
    let a = [1i64, 2, 3, 4, 5, 6];
    assert_eq!(mult_vec3(&a, &[1, 0, 0]), [1, 2]);
    assert_eq!(mult_vec3(&a, &[1, 1, 1]), [9, 12]);
    let id = [1i64, 0, 0, 0, 1, 0, 0, 0, 1];
    assert_eq!(mult_mat3_col_major(&a, &id), a);
    let b = [1i64, 1, 1, 0, 0, 0, 0, 1, 0];
    assert_eq!(mult_mat3_col_major(&a, &b), [9, 12, 0, 0, 3, 4]);
}

#[test]
fn mat4_identity_and_diagonal() {
    let id = identity::<f64>();
    for i in 0..4 {
        for j in 0..4 {
            assert_eq!(id[4 * j + i], if i == j { 1.0 } else { 0.0 });
        }
    }
    let d = diagonal(1i64, 2, 3, 4);
    assert_eq!(d, [1, 0, 0, 0, 0, 2, 0, 0, 0, 0, 3, 0, 0, 0, 0, 4]);
}

#[test]
fn vec3_difference() {
    assert_eq!(del_geo_core::vec3::sub(&[1, 2, 3], &[4, 6, 8]), [-3, -4, -5]);
    assert_eq!(del_geo_core::vec3::sub(&[0.5f64, 0.0, 1.0], &[0.5, -1.0, 0.0]), [0.0, 1.0, 1.0]);
}

#[test]
fn gram_schmidt_step_removes_the_component() {
    let u0 = [0i64, 1, 0];
    let u1 = [3i64, 4, 5];
    let d = dot(&u0, &u1);
    let r = del_geo_core::vec3::sub_scaled(&u1, d, &u0);
    assert_eq!(r, [3, 0, 5]);
    assert_eq!(dot(&r, &u0), 0);
    assert_eq!(del_geo_core::vec3::sub_scaled(&[1.0f64, 1.0, 1.0], 0.5, &[2.0, 0.0, -2.0]), [0.0, 1.0, 2.0]);
}
