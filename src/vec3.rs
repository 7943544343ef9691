//! 3D vectors as `[T; 3]`.
use crate::arith::{cross2, cross2_req, dot3, dot3_req, obeys_ring};
use vstd::prelude::*;
use vstd::std_specs::ops::{AddSpec, MulSpec, SubSpec};

verus! {

/// Components of `a x b`, in the order they are evaluated.
pub open spec fn cross_spec<T>(a: Seq<T>, b: Seq<T>) -> Seq<T>
    where
        T: std::ops::Sub<Output = T> + std::ops::Mul<Output = T>,
{
    seq![cross2(a[1], a[2], b[1], b[2]), cross2(a[2], a[0], b[2], b[0]), cross2(a[0], a[1], b[0], b[1])]
}

pub open spec fn cross_req<T>(a: Seq<T>, b: Seq<T>) -> bool
    where
        T: std::ops::Sub<Output = T> + std::ops::Mul<Output = T>,
{
    &&& cross2_req(a[1], a[2], b[1], b[2])
    &&& cross2_req(a[2], a[0], b[2], b[0])
    &&& cross2_req(a[0], a[1], b[0], b[1])
}

/// Cross product `a x b`.
pub fn cross<T>(a: &[T; 3], b: &[T; 3]) -> (r: [T; 3])
    where
        T: std::ops::Add<Output = T> + std::ops::Sub<Output = T> + std::ops::Mul<Output = T> + Copy,
    requires
        obeys_ring::<T>(),
        cross_req(a@, b@),
    ensures
        r@ == cross_spec(a@, b@),
{
    let r = [a[1] * b[2] - a[2] * b[1], a[2] * b[0] - a[0] * b[2], a[0] * b[1] - a[1] * b[0]];
    assert(r@ =~= cross_spec(a@, b@));
    r
}

/// Dot product `a . b`.
pub fn dot<T>(a: &[T; 3], b: &[T; 3]) -> (r: T)
    where
        T: std::ops::Add<Output = T> + std::ops::Mul<Output = T> + Copy,
    requires
        T::obeys_add_spec(),
        T::obeys_mul_spec(),
        dot3_req(a[0], a[1], a[2], b[0], b[1], b[2]),
    ensures
        r == dot3(a[0], a[1], a[2], b[0], b[1], b[2]),
{
    a[0] * b[0] + a[1] * b[1] + a[2] * b[2]
}

/// Componentwise difference `a - b`.
pub fn sub<T>(a: &[T; 3], b: &[T; 3]) -> (r: [T; 3])
    where
        T: std::ops::Sub<Output = T> + Copy,
    requires
        a[0].sub_req(b[0]),
        a[1].sub_req(b[1]),
        a[2].sub_req(b[2]),
    ensures
        T::obeys_sub_spec() ==> r@ == seq![a[0].sub_spec(b[0]), a[1].sub_spec(b[1]), a[2].sub_spec(b[2])],
{
    let r = [a[0] - b[0], a[1] - b[1], a[2] - b[2]];
    assert(T::obeys_sub_spec() ==> r@ =~= seq![a[0].sub_spec(b[0]), a[1].sub_spec(b[1]), a[2].sub_spec(b[2])]);
    r
}

/// `a - s * b`, componentwise.
pub fn sub_scaled<T>(a: &[T; 3], s: T, b: &[T; 3]) -> (r: [T; 3])
    where
        T: std::ops::Sub<Output = T> + std::ops::Mul<Output = T> + Copy,
    requires
        T::obeys_sub_spec(),
        T::obeys_mul_spec(),
        forall|i: int| 0 <= i < 3 ==> #[trigger] s.mul_req(b@[i]) && a@[i].sub_req(s.mul_spec(b@[i])),
    ensures
        forall|i: int| 0 <= i < 3 ==> #[trigger] r@[i] == a@[i].sub_spec(s.mul_spec(b@[i])),
{
    assert(s.mul_req(b@[0]) && s.mul_req(b@[1]) && s.mul_req(b@[2]));
    let r = [a[0] - s * b[0], a[1] - s * b[1], a[2] - s * b[2]];
    assert forall|i: int| 0 <= i < 3 implies #[trigger] r@[i] == a@[i].sub_spec(s.mul_spec(b@[i])) by {
        assert(i == 0 || i == 1 || i == 2);
    }
    r
}

/// Exact dot product of two integer vectors.
pub open spec fn dot_exact(a: Seq<i64>, b: Seq<i64>) -> int {
    a[0] * b[0] + a[1] * b[1] + a[2] * b[2]
}

/// One Gram-Schmidt step: for a unit vector `u0`, removing from `u1` its
/// component `(u0 . u1) u0`, as `sub_scaled(u1, u0 . u1, u0)` does, leaves a
/// vector orthogonal to `u0`.
pub proof fn lemma_gram_schmidt_step_is_orthogonal(u0: Seq<i64>, u1: Seq<i64>, r: Seq<i64>)
    requires
        u0.len() == 3,
        u1.len() == 3,
        r.len() == 3,
        dot_exact(u0, u0) == 1,
        forall|i: int| 0 <= i < 3 ==> #[trigger] r[i] == u1[i] - dot_exact(u0, u1) * u0[i],
    ensures
        dot_exact(r, u0) == 0,
{
    let d = dot_exact(u0, u1);
    let (a0, a1, a2) = (u0[0] as int, u0[1] as int, u0[2] as int);
    let (b0, b1, b2) = (u1[0] as int, u1[1] as int, u1[2] as int);
    assert(r[0] == b0 - d * a0 && r[1] == b1 - d * a1 && r[2] == b2 - d * a2);
    assert((b0 - d * a0) * a0 + (b1 - d * a1) * a1 + (b2 - d * a2) * a2 == (b0 * a0 + b1 * a1 + b2 * a2)
        - d * (a0 * a0 + a1 * a1 + a2 * a2)) by (nonlinear_arith);
}

} // verus!
