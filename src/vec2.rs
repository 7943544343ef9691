//! 2D vectors as `[T; 2]`.
use crate::arith::cross2;
use vstd::prelude::*;
use vstd::std_specs::ops::{AddSpec, MulSpec, SubSpec};

verus! {

/// Operations on 2D vectors.
pub trait Vec2<Real>: Sized {
    /// `self - other` may be evaluated without breaking an operator's precondition.
    spec fn sub_ok(&self, other: &Self) -> bool;

    /// `self + other` may be evaluated without breaking an operator's precondition.
    spec fn add_ok(&self, other: &Self) -> bool;

    /// The componentwise difference.
    spec fn difference(&self, other: &Self) -> Self;

    /// The componentwise sum.
    spec fn sum(&self, other: &Self) -> Self;

    fn sub(&self, other: &Self) -> (r: Self)
        requires
            self.sub_ok(other),
        ensures
            r == self.difference(other),
    ;

    fn add(&self, other: &Self) -> (r: Self)
        requires
            self.add_ok(other),
        ensures
            r == self.sum(other),
    ;
}

impl<Real> Vec2<Real> for [Real; 2] where
    Real: std::ops::Sub<Output = Real> + std::ops::Add<Output = Real> + Copy,
 {
    open spec fn sub_ok(&self, other: &Self) -> bool {
        Real::obeys_sub_spec() && self@[0].sub_req(other@[0]) && self@[1].sub_req(other@[1])
    }

    open spec fn add_ok(&self, other: &Self) -> bool {
        Real::obeys_add_spec() && self@[0].add_req(other@[0]) && self@[1].add_req(other@[1])
    }

    open spec fn difference(&self, other: &Self) -> Self {
        [self@[0].sub_spec(other@[0]), self@[1].sub_spec(other@[1])]
    }

    open spec fn sum(&self, other: &Self) -> Self {
        [self@[0].add_spec(other@[0]), self@[1].add_spec(other@[1])]
    }

    fn sub(&self, other: &Self) -> (r: Self) {
        let r = crate::vec2::sub(self, other);
        assert(r@ =~= self.difference(other)@);
        r
    }

    fn add(&self, other: &Self) -> (r: Self) {
        let r = crate::vec2::add(self, other);
        assert(r@ =~= self.sum(other)@);
        r
    }
}

/// Componentwise difference `a - b`.
pub fn sub<T>(a: &[T; 2], b: &[T; 2]) -> (r: [T; 2])
    where
        T: std::ops::Sub<Output = T> + Copy,
    requires
        a[0].sub_req(b[0]),
        a[1].sub_req(b[1]),
    ensures
        T::obeys_sub_spec() ==> r@ == seq![a[0].sub_spec(b[0]), a[1].sub_spec(b[1])],
{
    [a[0] - b[0], a[1] - b[1]]
}

/// Componentwise sum `a + b`.
pub fn add<T>(a: &[T; 2], b: &[T; 2]) -> (r: [T; 2])
    where
        T: std::ops::Add<Output = T> + Copy,
    requires
        a[0].add_req(b[0]),
        a[1].add_req(b[1]),
    ensures
        T::obeys_add_spec() ==> r@ == seq![a[0].add_spec(b[0]), a[1].add_spec(b[1])],
{
    [a[0] + b[0], a[1] + b[1]]
}

/// `a` scaled by `s`.
pub fn scale<T>(a: &[T; 2], s: T) -> (r: [T; 2])
    where
        T: std::ops::Mul<Output = T> + Copy,
    requires
        a[0].mul_req(s),
        a[1].mul_req(s),
    ensures
        T::obeys_mul_spec() ==> r@ == seq![a[0].mul_spec(s), a[1].mul_spec(s)],
{
    [a[0] * s, a[1] * s]
}

/// `a[0] * b[0] + a[1] * b[1]`.
pub open spec fn dot_spec<T>(a: Seq<T>, b: Seq<T>) -> T
    where
        T: std::ops::Add<Output = T> + std::ops::Mul<Output = T>,
{
    a[0].mul_spec(b[0]).add_spec(a[1].mul_spec(b[1]))
}

pub open spec fn dot_req<T>(a: Seq<T>, b: Seq<T>) -> bool
    where
        T: std::ops::Add<Output = T> + std::ops::Mul<Output = T>,
{
    a[0].mul_req(b[0]) && a[1].mul_req(b[1]) && a[0].mul_spec(b[0]).add_req(a[1].mul_spec(b[1]))
}

/// Dot product.
pub fn dot<T>(a: &[T; 2], b: &[T; 2]) -> (r: T)
    where
        T: std::ops::Add<Output = T> + std::ops::Mul<Output = T> + Copy,
    requires
        T::obeys_add_spec(),
        T::obeys_mul_spec(),
        dot_req(a@, b@),
    ensures
        r == dot_spec(a@, b@),
{
    a[0] * b[0] + a[1] * b[1]
}

/// Squared length `p . p`.
pub fn squared_length<T>(p: &[T; 2]) -> (r: T)
    where
        T: std::ops::Add<Output = T> + std::ops::Mul<Output = T> + Copy,
    requires
        T::obeys_add_spec(),
        T::obeys_mul_spec(),
        dot_req(p@, p@),
    ensures
        r == dot_spec(p@, p@),
{
    p[0] * p[0] + p[1] * p[1]
}

/// Signed area of the parallelogram spanned by `a` and `b`:
/// `a[0] * b[1] - a[1] * b[0]`.
pub fn area_quadrilateral<T>(a: &[T; 2], b: &[T; 2]) -> (r: T)
    where
        T: std::ops::Sub<Output = T> + std::ops::Mul<Output = T> + Copy,
    requires
        T::obeys_sub_spec(),
        T::obeys_mul_spec(),
        crate::arith::cross2_req(a[0], a[1], b[0], b[1]),
    ensures
        r == cross2(a[0], a[1], b[0], b[1]),
{
    a[0] * b[1] - a[1] * b[0]
}

/// `alpha * x + y`.
pub fn axpy<T>(alpha: T, x: &[T; 2], y: &[T; 2]) -> (r: [T; 2])
    where
        T: std::ops::Add<Output = T> + std::ops::Mul<Output = T> + Copy,
    requires
        T::obeys_add_spec(),
        T::obeys_mul_spec(),
        alpha.mul_req(x[0]) && alpha.mul_spec(x[0]).add_req(y[0]),
        alpha.mul_req(x[1]) && alpha.mul_spec(x[1]).add_req(y[1]),
    ensures
        r@ == seq![alpha.mul_spec(x[0]).add_spec(y[0]), alpha.mul_spec(x[1]).add_spec(y[1])],
{
    [alpha * x[0] + y[0], alpha * x[1] + y[1]]
}

// -------------------------------
// below: about the Vec2 class

/// A borrowed 2D point.
pub struct XY<'a, Real> {
    pub p: &'a [Real; 2],
}

impl<'a, Real: Copy> XY<'a, Real> {
    /// The degenerate bounding box of the point: `[x_min, y_min, x_max, y_max]`.
    pub fn aabb(&self) -> (r: [Real; 4])
        ensures
            r@ == seq![self.p[0], self.p[1], self.p[0], self.p[1]],
    {
        let r = [self.p[0], self.p[1], self.p[0], self.p[1]];
        assert(r@ =~= seq![self.p[0], self.p[1], self.p[0], self.p[1]]);
        r
    }
}

} // verus!
