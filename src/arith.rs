//! Spec-level arithmetic over any type with the std operator traits.
//!
//! Each executable primitive of this crate is generic over its scalar type and
//! states its result through vstd's operator specifications (`add_spec`,
//! `sub_spec`, `mul_spec`, `neg_spec`). For the machine integers those are the
//! integer operations; for types whose operators carry no specification the
//! contracts claim nothing about the value.
use vstd::prelude::*;
use vstd::std_specs::ops::{AddSpec, MulSpec, NegSpec, SubSpec};

verus! {

/// The operators `+`, `-` and `*` of `T` follow their specifications.
pub open spec fn obeys_ring<T>() -> bool
    where
        T: std::ops::Add<Output = T> + std::ops::Sub<Output = T> + std::ops::Mul<Output = T>,
{
    T::obeys_add_spec() && T::obeys_sub_spec() && T::obeys_mul_spec()
}

/// `a * b * c`, evaluated left to right.
pub open spec fn mul3<T>(a: T, b: T, c: T) -> T
    where
        T: std::ops::Mul<Output = T>,
{
    a.mul_spec(b).mul_spec(c)
}

pub open spec fn mul3_req<T>(a: T, b: T, c: T) -> bool
    where
        T: std::ops::Mul<Output = T>,
{
    a.mul_req(b) && a.mul_spec(b).mul_req(c)
}

/// `a0 * b0 + a1 * b1 + a2 * b2`, evaluated left to right.
pub open spec fn dot3<T>(a0: T, a1: T, a2: T, b0: T, b1: T, b2: T) -> T
    where
        T: std::ops::Add<Output = T> + std::ops::Mul<Output = T>,
{
    a0.mul_spec(b0).add_spec(a1.mul_spec(b1)).add_spec(a2.mul_spec(b2))
}

pub open spec fn dot3_req<T>(a0: T, a1: T, a2: T, b0: T, b1: T, b2: T) -> bool
    where
        T: std::ops::Add<Output = T> + std::ops::Mul<Output = T>,
{
    &&& a0.mul_req(b0)
    &&& a1.mul_req(b1)
    &&& a2.mul_req(b2)
    &&& a0.mul_spec(b0).add_req(a1.mul_spec(b1))
    &&& a0.mul_spec(b0).add_spec(a1.mul_spec(b1)).add_req(a2.mul_spec(b2))
}

/// `a * d - b * c`, evaluated left to right.
pub open spec fn cross2<T>(a: T, b: T, c: T, d: T) -> T
    where
        T: std::ops::Sub<Output = T> + std::ops::Mul<Output = T>,
{
    a.mul_spec(d).sub_spec(b.mul_spec(c))
}

pub open spec fn cross2_req<T>(a: T, b: T, c: T, d: T) -> bool
    where
        T: std::ops::Sub<Output = T> + std::ops::Mul<Output = T>,
{
    a.mul_req(d) && b.mul_req(c) && a.mul_spec(d).sub_req(b.mul_spec(c))
}

/// `-x`
pub open spec fn neg<T>(x: T) -> T
    where
        T: std::ops::Neg<Output = T>,
{
    x.neg_spec()
}

} // verus!
