//! 4x4 matrices stored as sixteen entries in column-major order.
use vstd::prelude::*;
use vstd::std_specs::convert::FromSpec;

verus! {

/// The diagonal matrix with `m11`, `m22`, `m33`, `m44` on its diagonal.
pub open spec fn diagonal_spec<T>(m11: T, m22: T, m33: T, m44: T, zero: T) -> Seq<T> {
    seq![m11, zero, zero, zero, zero, m22, zero, zero, zero, zero, m33, zero, zero, zero, zero, m44]
}

/// The 4x4 identity matrix.
pub fn identity<T>() -> (r: [T; 16])
    where
        T: From<i8> + Copy,
    ensures
        <T as FromSpec<i8>>::obeys_from_spec() ==> r@ == diagonal_spec(
            T::from_spec(1i8),
            T::from_spec(1i8),
            T::from_spec(1i8),
            T::from_spec(1i8),
            T::from_spec(0i8),
        ),
{
    let zero = T::from(0i8);
    let one = T::from(1i8);
    let r = [one, zero, zero, zero, zero, one, zero, zero, zero, zero, one, zero, zero, zero, zero, one];
    assert(<T as FromSpec<i8>>::obeys_from_spec() ==> r@ =~= diagonal_spec(
        T::from_spec(1i8),
        T::from_spec(1i8),
        T::from_spec(1i8),
        T::from_spec(1i8),
        T::from_spec(0i8),
    ));
    r
}

/// The diagonal matrix `diag(m11, m22, m33, m44)`.
pub fn diagonal<T>(m11: T, m22: T, m33: T, m44: T) -> (r: [T; 16])
    where
        T: From<i8> + Copy,
    ensures
        <T as FromSpec<i8>>::obeys_from_spec() ==> r@ == diagonal_spec(m11, m22, m33, m44, T::from_spec(0i8)),
{
    let zero = T::from(0i8);
    let r = [m11, zero, zero, zero, zero, m22, zero, zero, zero, zero, m33, zero, zero, zero, zero, m44];
    assert(<T as FromSpec<i8>>::obeys_from_spec() ==> r@ =~= diagonal_spec(
        m11,
        m22,
        m33,
        m44,
        T::from_spec(0i8),
    ));
    r
}

} // verus!
