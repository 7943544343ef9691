//! 2x3 matrices stored as six entries in column-major order: entry (i, j) is
//! at index `2 * j + i`.
use crate::arith::{dot3, dot3_req};
use vstd::prelude::*;
use vstd::std_specs::ops::{AddSpec, MulSpec};

verus! {

/// Row i of `a` times column c of the column-major 3x3 matrix `b`.
pub open spec fn col_major_entry<T>(a: Seq<T>, b: Seq<T>, i: int, c: int) -> T
    where
        T: std::ops::Add<Output = T> + std::ops::Mul<Output = T>,
{
    dot3(a[i], a[2 + i], a[4 + i], b[3 * c], b[3 * c + 1], b[3 * c + 2])
}

pub open spec fn col_major_entry_req<T>(a: Seq<T>, b: Seq<T>, i: int, c: int) -> bool
    where
        T: std::ops::Add<Output = T> + std::ops::Mul<Output = T>,
{
    dot3_req(a[i], a[2 + i], a[4 + i], b[3 * c], b[3 * c + 1], b[3 * c + 2])
}

fn col_major_entry_exec<T>(a: &[T; 6], b: &[T], i: usize, c: usize) -> (r: T)
    where
        T: std::ops::Add<Output = T> + std::ops::Mul<Output = T> + Copy,
    requires
        i < 2,
        c < 3,
        3 * c + 2 < b@.len(),
        T::obeys_add_spec(),
        T::obeys_mul_spec(),
        col_major_entry_req(a@, b@, i as int, c as int),
    ensures
        r == col_major_entry(a@, b@, i as int, c as int),
{
    a[i] * b[3 * c] + a[2 + i] * b[3 * c + 1] + a[4 + i] * b[3 * c + 2]
}

/// The product `a * b` of the 2x3 matrix `a` and the 3D vector `b`.
pub fn mult_vec3<T>(a: &[T; 6], b: &[T; 3]) -> (r: [T; 2])
    where
        T: std::ops::Add<Output = T> + std::ops::Mul<Output = T> + Copy,
    requires
        T::obeys_add_spec(),
        T::obeys_mul_spec(),
        col_major_entry_req(a@, b@, 0, 0),
        col_major_entry_req(a@, b@, 1, 0),
    ensures
        r@ == seq![col_major_entry(a@, b@, 0, 0), col_major_entry(a@, b@, 1, 0)],
{
    let r = [col_major_entry_exec(a, b.as_slice(), 0, 0), col_major_entry_exec(a, b.as_slice(), 1, 0)];
    assert(r@ =~= seq![col_major_entry(a@, b@, 0, 0), col_major_entry(a@, b@, 1, 0)]);
    r
}

/// The product `a * b` of the 2x3 matrix `a` and the column-major 3x3 matrix
/// `b`, a 2x3 matrix in column-major order.
pub fn mult_mat3_col_major<T>(a: &[T; 6], b: &[T; 9]) -> (r: [T; 6])
    where
        T: std::ops::Add<Output = T> + std::ops::Mul<Output = T> + Copy,
    requires
        T::obeys_add_spec(),
        T::obeys_mul_spec(),
        forall|i: int, c: int|
            0 <= i < 2 && 0 <= c < 3 ==> #[trigger] col_major_entry_req(a@, b@, i, c),
    ensures
        forall|i: int, c: int|
            0 <= i < 2 && 0 <= c < 3 ==> #[trigger] r@[2 * c + i] == col_major_entry(a@, b@, i, c),
{
    let bs = b.as_slice();
    let r = [
        col_major_entry_exec(a, bs, 0, 0),
        col_major_entry_exec(a, bs, 1, 0),
        col_major_entry_exec(a, bs, 0, 1),
        col_major_entry_exec(a, bs, 1, 1),
        col_major_entry_exec(a, bs, 0, 2),
        col_major_entry_exec(a, bs, 1, 2),
    ];
    assert forall|i: int, c: int| 0 <= i < 2 && 0 <= c < 3 implies #[trigger] r@[2 * c + i]
        == col_major_entry(a@, b@, i, c) by {
        assert(i == 0 || i == 1);
        assert(c == 0 || c == 1 || c == 2);
    }
    r
}

} // verus!
