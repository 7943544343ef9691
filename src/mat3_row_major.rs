//! 3x3 matrices stored as nine entries in row-major order: entry (i, j) is at
//! index `3 * i + j`.
use crate::arith::{dot3, dot3_req, mul3, mul3_req, neg, obeys_ring};
use vstd::prelude::*;
use vstd::std_specs::cmp::PartialOrdSpec;
use vstd::std_specs::convert::FromSpec;
use vstd::std_specs::ops::{AddSpec, MulSpec, NegSpec, SubSpec};

verus! {

/// Determinant by the rule of Sarrus, in the order the terms are evaluated.
pub open spec fn det_spec<T>(u: Seq<T>) -> T
    where
        T: std::ops::Add<Output = T> + std::ops::Sub<Output = T> + std::ops::Mul<Output = T>,
{
    mul3(u[0], u[4], u[8]).add_spec(mul3(u[3], u[7], u[2])).add_spec(
        mul3(u[6], u[1], u[5]),
    ).sub_spec(mul3(u[0], u[7], u[5])).sub_spec(mul3(u[6], u[4], u[2])).sub_spec(
        mul3(u[3], u[1], u[8]),
    )
}

/// Every operation of `det_spec` is within its operator's precondition.
pub open spec fn det_req<T>(u: Seq<T>) -> bool
    where
        T: std::ops::Add<Output = T> + std::ops::Sub<Output = T> + std::ops::Mul<Output = T>,
{
    let p0 = mul3(u[0], u[4], u[8]);
    let p1 = mul3(u[3], u[7], u[2]);
    let p2 = mul3(u[6], u[1], u[5]);
    let q0 = mul3(u[0], u[7], u[5]);
    let q1 = mul3(u[6], u[4], u[2]);
    let q2 = mul3(u[3], u[1], u[8]);
    &&& mul3_req(u[0], u[4], u[8])
    &&& mul3_req(u[3], u[7], u[2])
    &&& mul3_req(u[6], u[1], u[5])
    &&& mul3_req(u[0], u[7], u[5])
    &&& mul3_req(u[6], u[4], u[2])
    &&& mul3_req(u[3], u[1], u[8])
    &&& p0.add_req(p1)
    &&& p0.add_spec(p1).add_req(p2)
    &&& p0.add_spec(p1).add_spec(p2).sub_req(q0)
    &&& p0.add_spec(p1).add_spec(p2).sub_spec(q0).sub_req(q1)
    &&& p0.add_spec(p1).add_spec(p2).sub_spec(q0).sub_spec(q1).sub_req(q2)
}

/// Entry (i, j) of the product `a * b`: row i of `a` times column j of `b`.
pub open spec fn product_entry<T>(a: Seq<T>, b: Seq<T>, i: int, j: int) -> T
    where
        T: std::ops::Add<Output = T> + std::ops::Mul<Output = T>,
{
    dot3(a[3 * i], a[3 * i + 1], a[3 * i + 2], b[j], b[3 + j], b[6 + j])
}

pub open spec fn product_req<T>(a: Seq<T>, b: Seq<T>) -> bool
    where
        T: std::ops::Add<Output = T> + std::ops::Mul<Output = T>,
{
    forall|i: int, j: int|
        0 <= i < 3 && 0 <= j < 3 ==> #[trigger] dot3_req(
            a[3 * i],
            a[3 * i + 1],
            a[3 * i + 2],
            b[j],
            b[3 + j],
            b[6 + j],
        )
}

/// Sum of the squares of the first `n` entries, added left to right starting
/// from the first square.
pub open spec fn squared_sum<T>(u: Seq<T>, n: nat) -> T
    where
        T: std::ops::Add<Output = T> + std::ops::Mul<Output = T>,
    decreases n,
{
    if n <= 1 {
        u[0].mul_spec(u[0])
    } else {
        squared_sum(u, (n - 1) as nat).add_spec(u[n - 1].mul_spec(u[n - 1]))
    }
}

pub open spec fn squared_sum_req<T>(u: Seq<T>, n: nat) -> bool
    where
        T: std::ops::Add<Output = T> + std::ops::Mul<Output = T>,
    decreases n,
{
    if n <= 1 {
        u[0].mul_req(u[0])
    } else {
        &&& squared_sum_req(u, (n - 1) as nat)
        &&& u[n - 1].mul_req(u[n - 1])
        &&& squared_sum(u, (n - 1) as nat).add_req(u[n - 1].mul_spec(u[n - 1]))
    }
}

/// The 3x3 identity matrix given the values that stand for 0 and 1.
pub open spec fn identity_spec<T>(zero: T, one: T) -> Seq<T> {
    seq![one, zero, zero, zero, one, zero, zero, zero, one]
}

/// Operations on 3x3 matrices in row-major order.
pub trait Mat3RowMajor<Real>: Sized {
    /// The nine entries, row by row.
    spec fn entries(&self) -> Seq<Real>;

    /// The scalar type's operators follow their specifications.
    spec fn scalar_ok() -> bool;

    spec fn identity_entries() -> Seq<Real>;

    spec fn determinant_ok(&self) -> bool;

    spec fn determinant_value(&self) -> Real;

    spec fn squared_norm_ok(&self) -> bool;

    spec fn squared_norm_value(&self) -> Real;

    spec fn transpose_entries(&self) -> Seq<Real>;

    spec fn product_ok(&self, b: &Self) -> bool;

    spec fn product_entries(&self, b: &Self) -> Seq<Real>;

    spec fn difference_ok(&self, b: &Self) -> bool;

    spec fn difference_entries(&self, b: &Self) -> Seq<Real>;

    fn from_identity() -> (r: Self)
        requires
            Self::scalar_ok(),
        ensures
            r.entries() == Self::identity_entries(),
    ;

    fn determinant(&self) -> (r: Real)
        requires
            Self::scalar_ok(),
            self.determinant_ok(),
        ensures
            r == self.determinant_value(),
    ;

    fn squared_norm(&self) -> (r: Real)
        requires
            Self::scalar_ok(),
            self.squared_norm_ok(),
        ensures
            r == self.squared_norm_value(),
    ;

    fn transpose(&self) -> (r: Self)
        ensures
            r.entries() == self.transpose_entries(),
    ;

    fn mult_mat_row_major(&self, b: &Self) -> (r: Self)
        requires
            Self::scalar_ok(),
            self.product_ok(b),
        ensures
            r.entries() == self.product_entries(b),
    ;

    fn sub(&self, b: &Self) -> (r: Self)
        requires
            Self::scalar_ok(),
            self.difference_ok(b),
        ensures
            r.entries() == self.difference_entries(b),
    ;
}

impl<Real> Mat3RowMajor<Real> for [Real; 9] where
    Real: std::ops::Add<Output = Real> + std::ops::Sub<Output = Real> + std::ops::Mul<Output = Real>
        + From<i8> + Copy,
 {
    open spec fn entries(&self) -> Seq<Real> {
        self@
    }

    open spec fn scalar_ok() -> bool {
        obeys_ring::<Real>() && <Real as FromSpec<i8>>::obeys_from_spec()
    }

    open spec fn identity_entries() -> Seq<Real> {
        identity_spec(Real::from_spec(0i8), Real::from_spec(1i8))
    }

    open spec fn determinant_ok(&self) -> bool {
        det_req(self@)
    }

    open spec fn determinant_value(&self) -> Real {
        det_spec(self@)
    }

    open spec fn squared_norm_ok(&self) -> bool {
        squared_sum_req(self@, 9)
    }

    open spec fn squared_norm_value(&self) -> Real {
        squared_sum(self@, 9)
    }

    open spec fn transpose_entries(&self) -> Seq<Real> {
        Seq::new(9, |k: int| self@[3 * (k % 3) + k / 3])
    }

    open spec fn product_ok(&self, b: &Self) -> bool {
        product_req(self@, b@)
    }

    open spec fn product_entries(&self, b: &Self) -> Seq<Real> {
        Seq::new(9, |k: int| product_entry(self@, b@, k / 3, k % 3))
    }

    open spec fn difference_ok(&self, b: &Self) -> bool {
        forall|i: int| 0 <= i < 9 ==> #[trigger] self@[i].sub_req(b@[i])
    }

    open spec fn difference_entries(&self, b: &Self) -> Seq<Real> {
        Seq::new(9, |k: int| self@[k].sub_spec(b@[k]))
    }

    fn from_identity() -> (r: Self) {
        from_identity()
    }

    fn determinant(&self) -> (r: Real) {
        determinant(self)
    }

    fn squared_norm(&self) -> (r: Real) {
        squared_norm(self)
    }

    fn transpose(&self) -> (r: Self) {
        let r = transpose(self);
        assert forall|k: int| 0 <= k < 9 implies r@[k] == self.transpose_entries()[k] by {
            assert(r@[3 * (k / 3) + k % 3] == self@[3 * (k % 3) + k / 3]);
        }
        assert(r@ =~= self.transpose_entries());
        r
    }

    fn mult_mat_row_major(&self, b: &Self) -> (r: Self) {
        let r = mult_mat_row_major(self, b);
        assert forall|k: int| 0 <= k < 9 implies r@[k] == self.product_entries(b)[k] by {
            assert(r@[3 * (k / 3) + k % 3] == product_entry(self@, b@, k / 3, k % 3));
        }
        assert(r@ =~= self.product_entries(b));
        r
    }

    fn sub(&self, b: &Self) -> (r: Self) {
        let r = crate::mat3_row_major::sub(self, b);
        assert(r@ =~= self.difference_entries(b));
        r
    }
}

/// The 3x3 identity matrix.
pub fn from_identity<T>() -> (r: [T; 9])
    where
        T: From<i8> + Copy,
    ensures
        <T as FromSpec<i8>>::obeys_from_spec() ==> r@ == identity_spec(T::from_spec(0i8), T::from_spec(1i8)),
{
    let zero = T::from(0i8);
    let one = T::from(1i8);
    let r = [one, zero, zero, zero, one, zero, zero, zero, one];
    assert(<T as FromSpec<i8>>::obeys_from_spec() ==> r@ =~= identity_spec(
        T::from_spec(0i8),
        T::from_spec(1i8),
    ));
    r
}

/// Determinant of a 3x3 matrix.
pub fn determinant<T>(u: &[T; 9]) -> (r: T)
    where
        T: std::ops::Add<Output = T> + std::ops::Sub<Output = T> + std::ops::Mul<Output = T> + Copy,
    requires
        obeys_ring::<T>(),
        det_req(u@),
    ensures
        r == det_spec(u@),
{
    u[0] * u[4] * u[8] + u[3] * u[7] * u[2] + u[6] * u[1] * u[5] - u[0] * u[7] * u[5] - u[6]
        * u[4] * u[2] - u[3] * u[1] * u[8]
}

/// Sum of the squares of the nine entries (the squared Frobenius norm).
pub fn squared_norm<T>(u: &[T; 9]) -> (r: T)
    where
        T: std::ops::Add<Output = T> + std::ops::Mul<Output = T> + Copy,
    requires
        T::obeys_add_spec(),
        T::obeys_mul_spec(),
        squared_sum_req(u@, 9),
    ensures
        r == squared_sum(u@, 9),
{
    proof {
        lemma_squared_sum_req_prefix(u@, 1, 9);
    }
    let mut s: T = u[0] * u[0];
    let mut i: usize = 1;
    while i < 9
        invariant
            1 <= i <= 9,
            T::obeys_add_spec(),
            T::obeys_mul_spec(),
            squared_sum_req(u@, 9),
            s == squared_sum(u@, i as nat),
        decreases 9 - i,
    {
        proof {
            lemma_squared_sum_req_prefix(u@, (i + 1) as nat, 9);
        }
        s = s + u[i] * u[i];
        i = i + 1;
    }
    s
}

proof fn lemma_squared_sum_req_prefix<T>(u: Seq<T>, n: nat, m: nat)
    where
        T: std::ops::Add<Output = T> + std::ops::Mul<Output = T>,
    requires
        1 <= n <= m,
        squared_sum_req(u, m),
    ensures
        squared_sum_req(u, n),
    decreases m - n,
{
    if n < m {
        lemma_squared_sum_req_prefix(u, n, (m - 1) as nat);
    }
}

/// The transposed matrix.
pub fn transpose<T: Copy>(m: &[T; 9]) -> (r: [T; 9])
    ensures
        forall|i: int, j: int| 0 <= i < 3 && 0 <= j < 3 ==> #[trigger] r@[3 * i + j] == m@[3 * j + i],
{
    let r = [m[0], m[3], m[6], m[1], m[4], m[7], m[2], m[5], m[8]];
    assert forall|i: int, j: int| 0 <= i < 3 && 0 <= j < 3 implies #[trigger] r@[3 * i + j] == m@[3
        * j + i] by {
        assert(i == 0 || i == 1 || i == 2);
        assert(j == 0 || j == 1 || j == 2);
    }
    r
}

/// Entry (i, j) of `a * b`.
fn product_entry_exec<T>(a: &[T; 9], b: &[T; 9], i: usize, j: usize) -> (r: T)
    where
        T: std::ops::Add<Output = T> + std::ops::Mul<Output = T> + Copy,
    requires
        i < 3,
        j < 3,
        T::obeys_add_spec(),
        T::obeys_mul_spec(),
        product_req(a@, b@),
    ensures
        r == product_entry(a@, b@, i as int, j as int),
{
    assert(dot3_req(
        a@[3 * i as int],
        a@[3 * i as int + 1],
        a@[3 * i as int + 2],
        b@[j as int],
        b@[3 + j as int],
        b@[6 + j as int],
    ));
    a[3 * i] * b[j] + a[3 * i + 1] * b[3 + j] + a[3 * i + 2] * b[6 + j]
}

/// Matrix product `a * b`.
pub fn mult_mat_row_major<T>(a: &[T; 9], b: &[T; 9]) -> (r: [T; 9])
    where
        T: std::ops::Add<Output = T> + std::ops::Mul<Output = T> + Copy,
    requires
        T::obeys_add_spec(),
        T::obeys_mul_spec(),
        product_req(a@, b@),
    ensures
        forall|i: int, j: int|
            0 <= i < 3 && 0 <= j < 3 ==> #[trigger] r@[3 * i + j] == product_entry(a@, b@, i, j),
{
    let r = [
        product_entry_exec(a, b, 0, 0),
        product_entry_exec(a, b, 0, 1),
        product_entry_exec(a, b, 0, 2),
        product_entry_exec(a, b, 1, 0),
        product_entry_exec(a, b, 1, 1),
        product_entry_exec(a, b, 1, 2),
        product_entry_exec(a, b, 2, 0),
        product_entry_exec(a, b, 2, 1),
        product_entry_exec(a, b, 2, 2),
    ];
    assert forall|i: int, j: int| 0 <= i < 3 && 0 <= j < 3 implies #[trigger] r@[3 * i + j]
        == product_entry(a@, b@, i, j) by {
        assert(i == 0 || i == 1 || i == 2);
        assert(j == 0 || j == 1 || j == 2);
    }
    r
}

/// Entrywise difference `a - b`.
pub fn sub<T>(a: &[T; 9], b: &[T; 9]) -> (r: [T; 9])
    where
        T: std::ops::Sub<Output = T> + Copy,
    requires
        forall|i: int| 0 <= i < 9 ==> #[trigger] a@[i].sub_req(b@[i]),
    ensures
        T::obeys_sub_spec() ==> forall|i: int| 0 <= i < 9 ==> #[trigger] r@[i] == a@[i].sub_spec(b@[i]),
{
    assert(a@[0].sub_req(b@[0]) && a@[1].sub_req(b@[1]) && a@[2].sub_req(b@[2]));
    assert(a@[3].sub_req(b@[3]) && a@[4].sub_req(b@[4]) && a@[5].sub_req(b@[5]));
    assert(a@[6].sub_req(b@[6]) && a@[7].sub_req(b@[7]) && a@[8].sub_req(b@[8]));
    [
        a[0] - b[0],
        a[1] - b[1],
        a[2] - b[2],
        a[3] - b[3],
        a[4] - b[4],
        a[5] - b[5],
        a[6] - b[6],
        a[7] - b[7],
        a[8] - b[8],
    ]
}

// ---------------------------------------------------------------------------
// ordering of eigen-pairs

/// `a > b` as `T`'s comparison specifies it.
pub open spec fn greater<T: PartialOrd>(a: T, b: T) -> bool {
    a.partial_cmp_spec(&b) == Some(std::cmp::Ordering::Greater)
}

/// `greater` is a strict weak order on the three values of `g`: asymmetric,
/// transitive, and with a transitive negation.
pub open spec fn strict_weak_order3<T: PartialOrd>(g: Seq<T>) -> bool {
    &&& forall|i: int, j: int|
        0 <= i < 3 && 0 <= j < 3 && #[trigger] greater(g[i], g[j]) ==> !greater(g[j], g[i])
    &&& forall|i: int, j: int, k: int|
        0 <= i < 3 && 0 <= j < 3 && 0 <= k < 3 && #[trigger] greater(g[i], g[j]) && #[trigger] greater(
            g[j],
            g[k],
        ) ==> greater(g[i], g[k])
    &&& forall|i: int, j: int, k: int|
        0 <= i < 3 && 0 <= j < 3 && 0 <= k < 3 && !#[trigger] greater(g[i], g[j]) && !#[trigger] greater(
            g[j],
            g[k],
        ) ==> !greater(g[i], g[k])
}

/// `p` lists 0, 1 and 2 in some order.
pub open spec fn is_permutation3(p: Seq<int>) -> bool {
    &&& p.len() == 3
    &&& forall|j: int| 0 <= j < 3 ==> 0 <= #[trigger] p[j] < 3
    &&& p[0] != p[1] && p[1] != p[2] && p[0] != p[2]
}

/// Position j of `g` holds position `p[j]` of `g0`, and column j of `v` holds
/// column `p[j]` of `v0`: eigenvalues and eigenvector columns moved together.
pub open spec fn pairs_permuted<T>(g: Seq<T>, v: Seq<T>, g0: Seq<T>, v0: Seq<T>, p: Seq<int>) -> bool {
    &&& forall|j: int| 0 <= j < 3 ==> #[trigger] g[j] == g0[p[j]]
    &&& forall|r: int, j: int| 0 <= r < 3 && 0 <= j < 3 ==> #[trigger] v[3 * r + j] == v0[3 * r + p[j]]
}

/// `(g, v)` is `(g0, v0)` with its eigen-pairs rearranged, and, where `T`'s
/// comparison follows its specification and is a strict weak order on `g0`,
/// in descending order.
pub open spec fn sorted_rearrangement<T: PartialOrd>(g: Seq<T>, v: Seq<T>, g0: Seq<T>, v0: Seq<T>) -> bool {
    &&& exists|p: Seq<int>| is_permutation3(p) && pairs_permuted(g, v, g0, v0, p)
    &&& T::obeys_partial_cmp_spec() && strict_weak_order3(g0) ==> {
        &&& !greater(g[1], g[0])
        &&& !greater(g[2], g[1])
    }
}

/// Swaps entries `c` and `c + 1` of `g` and the matching columns of `v`.
fn swap_pair<T: Copy>(g: &mut [T; 3], v: &mut [T; 9], c: usize)
    requires
        c < 2,
    ensures
        pairs_permuted(
            final(g)@,
            final(v)@,
            old(g)@,
            old(v)@,
            seq![0int, 1, 2].update(c as int, c + 1).update(c + 1, c as int),
        ),
{
    let h = *g;
    let w = *v;
    if c == 0 {
        *g = [h[1], h[0], h[2]];
        *v = [w[1], w[0], w[2], w[4], w[3], w[5], w[7], w[6], w[8]];
    } else {
        *g = [h[0], h[2], h[1]];
        *v = [w[0], w[2], w[1], w[3], w[5], w[4], w[6], w[8], w[7]];
    }
    proof {
        let p = seq![0int, 1, 2].update(c as int, c + 1).update(c + 1, c as int);
        assert forall|r: int, j: int| 0 <= r < 3 && 0 <= j < 3 implies #[trigger] final(v)@[3 * r + j]
            == old(v)@[3 * r + p[j]] by {
            assert(r == 0 || r == 1 || r == 2);
            assert(j == 0 || j == 1 || j == 2);
        }
    }
}

/// Sorts the eigenvalues `g` into descending order with the comparison network
/// (1, 0), (2, 1), (1, 0), moving column j of the eigenvector matrix `v` along
/// with `g[j]`.
///
/// Whatever `T`'s comparison does, the result is a permutation of the pairs.
/// Where the comparison follows its specification and is a strict weak order
/// on the three values, no value is greater than the one before it.
pub fn sort_eigen<T: PartialOrd + Copy>(g: &mut [T; 3], v: &mut [T; 9])
    ensures
        sorted_rearrangement(final(g)@, final(v)@, old(g)@, old(v)@),
{
    let ghost g0 = old(g)@;
    let ghost v0 = old(v)@;
    let ghost mut p = seq![0int, 1, 2];
    if g[1] > g[0] {
        swap_pair(g, v, 0);
        proof {
            p = seq![p[1], p[0], p[2]];
        }
    }
    assert(is_permutation3(p) && pairs_permuted(g@, v@, g0, v0, p));
    if g[2] > g[1] {
        swap_pair(g, v, 1);
        proof {
            p = seq![p[0], p[2], p[1]];
        }
    }
    assert(is_permutation3(p) && pairs_permuted(g@, v@, g0, v0, p));
    if g[1] > g[0] {
        swap_pair(g, v, 0);
        proof {
            p = seq![p[1], p[0], p[2]];
        }
    }
    assert(is_permutation3(p) && pairs_permuted(g@, v@, g0, v0, p));
}

/// The symmetric eigendecomposition did not converge within its iteration
/// budget.
#[derive(Debug, Clone, Copy, PartialEq, Eq)]
pub struct ConvergenceError;

/// Takes the outcome of the symmetric eigendecomposition of `m^T m`, an
/// eigenvector matrix (eigenvectors in its columns) and the eigenvalues, and
/// returns the eigen-pairs in descending order of eigenvalue; a decomposition
/// that did not converge (`None`) becomes `ConvergenceError`.
pub fn sorted_eigen_pairs<T: PartialOrd + Copy>(eigen: Option<([T; 9], [T; 3])>) -> (r: Result<
    ([T; 9], [T; 3]),
    ConvergenceError,
>)
    ensures
        eigen is None <==> r == Err::<([T; 9], [T; 3]), ConvergenceError>(ConvergenceError),
        eigen matches Some((v0, g0)) ==> r matches Ok((v, g)) && sorted_rearrangement(g@, v@, g0@, v0@),
{
    match eigen {
        None => Err(ConvergenceError),
        Some((v0, g0)) => {
            let mut v = v0;
            let mut g = g0;
            sort_eigen(&mut g, &mut v);
            Ok((v, g))
        },
    }
}

// ---------------------------------------------------------------------------
// building blocks of the singular value decomposition

/// Dot product of columns `a` and `b` of `m`.
pub open spec fn column_dot<T>(m: Seq<T>, a: int, b: int) -> T
    where
        T: std::ops::Add<Output = T> + std::ops::Mul<Output = T>,
{
    dot3(m[a], m[3 + a], m[6 + a], m[b], m[3 + b], m[6 + b])
}

pub open spec fn column_dot_req<T>(m: Seq<T>, a: int, b: int) -> bool
    where
        T: std::ops::Add<Output = T> + std::ops::Mul<Output = T>,
{
    dot3_req(m[a], m[3 + a], m[6 + a], m[b], m[3 + b], m[6 + b])
}

/// The six entries of the symmetric matrix `m^T m`, packed as
/// (xx, yy, zz, yz, zx, xy).
pub open spec fn normal_matrix_spec<T>(m: Seq<T>) -> Seq<T>
    where
        T: std::ops::Add<Output = T> + std::ops::Mul<Output = T>,
{
    seq![
        column_dot(m, 0, 0),
        column_dot(m, 1, 1),
        column_dot(m, 2, 2),
        column_dot(m, 1, 2),
        column_dot(m, 2, 0),
        column_dot(m, 0, 1),
    ]
}

pub open spec fn normal_matrix_req<T>(m: Seq<T>) -> bool
    where
        T: std::ops::Add<Output = T> + std::ops::Mul<Output = T>,
{
    &&& column_dot_req(m, 0, 0)
    &&& column_dot_req(m, 1, 1)
    &&& column_dot_req(m, 2, 2)
    &&& column_dot_req(m, 1, 2)
    &&& column_dot_req(m, 2, 0)
    &&& column_dot_req(m, 0, 1)
}

/// Dot product of columns `a` and `b` of `m`.
fn column_dot_exec<T>(m: &[T; 9], a: usize, b: usize) -> (r: T)
    where
        T: std::ops::Add<Output = T> + std::ops::Mul<Output = T> + Copy,
    requires
        a < 3,
        b < 3,
        T::obeys_add_spec(),
        T::obeys_mul_spec(),
        column_dot_req(m@, a as int, b as int),
    ensures
        r == column_dot(m@, a as int, b as int),
{
    m[a] * m[b] + m[3 + a] * m[3 + b] + m[6 + a] * m[6 + b]
}

/// The packed symmetric matrix `m^T m` whose eigen-pairs give the right
/// singular vectors and the squared singular values of `m`.
pub fn normal_matrix_packed<T>(m: &[T; 9]) -> (r: [T; 6])
    where
        T: std::ops::Add<Output = T> + std::ops::Mul<Output = T> + Copy,
    requires
        T::obeys_add_spec(),
        T::obeys_mul_spec(),
        normal_matrix_req(m@),
    ensures
        r@ == normal_matrix_spec(m@),
{
    let r = [
        column_dot_exec(m, 0, 0),
        column_dot_exec(m, 1, 1),
        column_dot_exec(m, 2, 2),
        column_dot_exec(m, 1, 2),
        column_dot_exec(m, 2, 0),
        column_dot_exec(m, 0, 1),
    ];
    assert(r@ =~= normal_matrix_spec(m@));
    r
}

/// `m` times column `k` of `v`.
pub fn mult_column<T>(m: &[T; 9], v: &[T; 9], k: usize) -> (r: [T; 3])
    where
        T: std::ops::Add<Output = T> + std::ops::Mul<Output = T> + Copy,
    requires
        k < 3,
        T::obeys_add_spec(),
        T::obeys_mul_spec(),
        product_req(m@, v@),
    ensures
        forall|i: int| 0 <= i < 3 ==> #[trigger] r@[i] == product_entry(m@, v@, i, k as int),
{
    let r = [product_entry_exec(m, v, 0, k), product_entry_exec(m, v, 1, k), product_entry_exec(m, v, 2, k)];
    assert forall|i: int| 0 <= i < 3 implies #[trigger] r@[i] == product_entry(m@, v@, i, k as int) by {
        assert(i == 0 || i == 1 || i == 2);
    }
    r
}

/// The matrix whose columns are `c0`, `c1` and `c2`.
pub fn from_columns<T: Copy>(c0: &[T; 3], c1: &[T; 3], c2: &[T; 3]) -> (r: [T; 9])
    ensures
        forall|i: int| 0 <= i < 3 ==> r@[3 * i] == #[trigger] c0@[i] && r@[3 * i + 1] == c1@[i]
            && r@[3 * i + 2] == c2@[i],
{
    let r = [c0[0], c1[0], c2[0], c0[1], c1[1], c2[1], c0[2], c1[2], c2[2]];
    assert forall|i: int| 0 <= i < 3 implies r@[3 * i] == #[trigger] c0@[i] && r@[3 * i + 1] == c1@[i]
        && r@[3 * i + 2] == c2@[i] by {
        assert(i == 0 || i == 1 || i == 2);
    }
    r
}

/// Negates the third column of `v` together with the third singular value
/// `g[2]`, which leaves `U diag(g) V^T` unchanged and flips the sign of the
/// determinant of `v`.
pub fn reflect_third_axis<T>(v: &mut [T; 9], g: &mut [T; 3])
    where
        T: std::ops::Neg<Output = T> + Copy,
    requires
        T::obeys_neg_spec(),
        old(v)@[2].neg_req(),
        old(v)@[5].neg_req(),
        old(v)@[8].neg_req(),
        old(g)@[2].neg_req(),
    ensures
        final(v)@ == old(v)@.update(2, neg(old(v)@[2])).update(5, neg(old(v)@[5])).update(
            8,
            neg(old(v)@[8]),
        ),
        final(g)@ == old(g)@.update(2, neg(old(g)@[2])),
{
    let w = *v;
    let h = *g;
    *v = [
        w[0],
        w[1],
        std::ops::Neg::neg(w[2]),
        w[3],
        w[4],
        std::ops::Neg::neg(w[5]),
        w[6],
        w[7],
        std::ops::Neg::neg(w[8]),
    ];
    *g = [h[0], h[1], std::ops::Neg::neg(h[2])];
    assert(final(v)@ =~= old(v)@.update(2, neg(old(v)@[2])).update(5, neg(old(v)@[5])).update(
        8,
        neg(old(v)@[8]),
    ));
    assert(final(g)@ =~= old(g)@.update(2, neg(old(g)@[2])));
}

/// `a < b` as `T`'s comparison specifies it.
pub open spec fn less<T: PartialOrd>(a: T, b: T) -> bool {
    a.partial_cmp_spec(&b) == Some(std::cmp::Ordering::Less)
}

/// The scalar type's operators, comparison and conversion from `i8` follow
/// their specifications.
pub open spec fn obeys_scalar<T>() -> bool
    where
        T: std::ops::Add<Output = T> + std::ops::Sub<Output = T> + std::ops::Mul<Output = T>
            + std::ops::Neg<Output = T> + PartialOrd + From<i8>,
{
    &&& obeys_ring::<T>()
    &&& T::obeys_neg_spec()
    &&& T::obeys_partial_cmp_spec()
    &&& <T as FromSpec<i8>>::obeys_from_spec()
}

/// Makes the right singular vectors `v` a proper rotation: where the
/// determinant of `v` is below zero, negates its third column together with
/// the third singular value `g[2]` (see `reflect_third_axis`); otherwise
/// leaves both as they are.
pub fn correct_handedness<T>(v: &mut [T; 9], g: &mut [T; 3])
    where
        T: std::ops::Add<Output = T> + std::ops::Sub<Output = T> + std::ops::Mul<Output = T>
            + std::ops::Neg<Output = T> + PartialOrd + From<i8> + Copy,
    requires
        obeys_scalar::<T>(),
        det_req(old(v)@),
        old(v)@[2].neg_req(),
        old(v)@[5].neg_req(),
        old(v)@[8].neg_req(),
        old(g)@[2].neg_req(),
    ensures
        if less(det_spec(old(v)@), T::from_spec(0i8)) {
            &&& final(v)@ == old(v)@.update(2, neg(old(v)@[2])).update(5, neg(old(v)@[5])).update(
                8,
                neg(old(v)@[8]),
            )
            &&& final(g)@ == old(g)@.update(2, neg(old(g)@[2]))
        } else {
            &&& final(v)@ == old(v)@
            &&& final(g)@ == old(g)@
        },
{
    if determinant(v) < T::from(0i8) {
        reflect_third_axis(v, g);
    }
}

/// Records in the sign of the third singular value whether the projected
/// third column `projected` points against the column `completed` that the
/// cross product chose: `g[2]` is negated exactly when their dot product is
/// below zero.
pub fn orient_third_axis<T>(g: &mut [T; 3], projected: &[T; 3], completed: &[T; 3])
    where
        T: std::ops::Add<Output = T> + std::ops::Sub<Output = T> + std::ops::Mul<Output = T>
            + std::ops::Neg<Output = T> + PartialOrd + From<i8> + Copy,
    requires
        obeys_scalar::<T>(),
        dot3_req(projected[0], projected[1], projected[2], completed[0], completed[1], completed[2]),
        old(g)@[2].neg_req(),
    ensures
        final(g)@ == if less(
            dot3(projected[0], projected[1], projected[2], completed[0], completed[1], completed[2]),
            T::from_spec(0i8),
        ) {
            old(g)@.update(2, neg(old(g)@[2]))
        } else {
            old(g)@
        },
{
    let d = crate::vec3::dot(projected, completed);
    if d < T::from(0i8) {
        let h = *g;
        *g = [h[0], h[1], std::ops::Neg::neg(h[2])];
        assert(g@ =~= old(g)@.update(2, neg(old(g)@[2])));
    }
}

// ---------------------------------------------------------------------------
// laws of the handedness bookkeeping, on machine integers without overflow

/// `v` with its third column negated, as `reflect_third_axis` leaves it.
pub open spec fn reflected(v: Seq<i64>) -> Seq<i64> {
    v.update(2, neg(v[2])).update(5, neg(v[5])).update(8, neg(v[8]))
}

/// Entry (i, j) of `u * diag(g) * v^T`, computed exactly.
pub open spec fn reconstruction_entry(u: Seq<i64>, g: Seq<i64>, v: Seq<i64>, i: int, j: int) -> int {
    u[3 * i] * g[0] * v[3 * j] + u[3 * i + 1] * g[1] * v[3 * j + 1] + u[3 * i + 2] * g[2] * v[3 * j + 2]
}

/// The determinant of `m`, computed exactly.
pub open spec fn det_exact(m: Seq<i64>) -> int {
    m[0] * m[4] * m[8] + m[3] * m[7] * m[2] + m[6] * m[1] * m[5] - m[0] * m[7] * m[5] - m[6] * m[4]
        * m[2] - m[3] * m[1] * m[8]
}

/// Where no operation overflows, `det_spec` is the exact determinant.
pub proof fn lemma_det_spec_exact(m: Seq<i64>)
    requires
        m.len() == 9,
        det_req(m),
    ensures
        det_spec(m) as int == det_exact(m),
{
}

/// Negating the third column of `v` and the third singular value together
/// leaves every entry of `u * diag(g) * v^T` unchanged.
pub proof fn lemma_reflection_keeps_reconstruction(u: Seq<i64>, g: Seq<i64>, v: Seq<i64>, i: int, j: int)
    requires
        u.len() == 9,
        g.len() == 3,
        v.len() == 9,
        0 <= i < 3,
        0 <= j < 3,
        g[2].neg_req(),
        v[2].neg_req(),
        v[5].neg_req(),
        v[8].neg_req(),
    ensures
        reconstruction_entry(u, g.update(2, neg(g[2])), reflected(v), i, j) == reconstruction_entry(
            u,
            g,
            v,
            i,
            j,
        ),
{
    let w = reflected(v);
    assert(w[3 * j + 2] == -v[3 * j + 2]) by {
        assert(j == 0 || j == 1 || j == 2);
    }
    assert(w[3 * j] == v[3 * j] && w[3 * j + 1] == v[3 * j + 1]) by {
        assert(j == 0 || j == 1 || j == 2);
    }
    let a = u[3 * i + 2] as int;
    let b = g[2] as int;
    let c = v[3 * j + 2] as int;
    assert(a * (-b) * (-c) == a * b * c) by (nonlinear_arith);
}

/// Negating the third column of a matrix negates its determinant: a
/// reflection (determinant below zero) becomes a proper rotation.
pub proof fn lemma_reflection_negates_determinant(v: Seq<i64>)
    requires
        v.len() == 9,
        v[2].neg_req(),
        v[5].neg_req(),
        v[8].neg_req(),
    ensures
        det_exact(reflected(v)) == -det_exact(v),
{
    let w = reflected(v);
    assert(w[2] == -v[2] && w[5] == -v[5] && w[8] == -v[8]);
    let (a, b, c, d, e, f, x, y, z) = (
        v[0] as int,
        v[1] as int,
        v[2] as int,
        v[3] as int,
        v[4] as int,
        v[5] as int,
        v[6] as int,
        v[7] as int,
        v[8] as int,
    );
    assert(a * e * (-z) + d * y * (-c) + x * b * (-f) - a * y * (-f) - x * e * (-c) - d * b * (-z) == -(a
        * e * z + d * y * c + x * b * f - a * y * f - x * e * c - d * b * z)) by (nonlinear_arith);
}

/// The matrix with columns `a`, `b` and `a x b` has determinant
/// `|a x b|^2`, never negative: completing a basis by the cross product gives
/// a proper rotation.
pub proof fn lemma_cross_completion_is_right_handed(a: Seq<i64>, b: Seq<i64>)
    requires
        a.len() == 3,
        b.len() == 3,
        crate::vec3::cross_req(a, b),
    ensures
        ({
            let c = crate::vec3::cross_spec(a, b);
            let m = seq![a[0], b[0], c[0], a[1], b[1], c[1], a[2], b[2], c[2]];
            &&& det_exact(m) == c[0] * c[0] + c[1] * c[1] + c[2] * c[2]
            &&& det_exact(m) >= 0
        }),
{
    let c = crate::vec3::cross_spec(a, b);
    let (a0, a1, a2, b0, b1, b2) = (a[0] as int, a[1] as int, a[2] as int, b[0] as int, b[1] as int, b[2] as int);
    assert(c[0] == a1 * b2 - a2 * b1 && c[1] == a2 * b0 - a0 * b2 && c[2] == a0 * b1 - a1 * b0);
    let (c0, c1, c2) = (c[0] as int, c[1] as int, c[2] as int);
    assert(a1 * b2 * c0 - a2 * b1 * c0 == c0 * c0) by (nonlinear_arith)
        requires
            c0 == a1 * b2 - a2 * b1,
    ;
    assert(a2 * b0 * c1 - a0 * b2 * c1 == c1 * c1) by (nonlinear_arith)
        requires
            c1 == a2 * b0 - a0 * b2,
    ;
    assert(a0 * b1 * c2 - a1 * b0 * c2 == c2 * c2) by (nonlinear_arith)
        requires
            c2 == a0 * b1 - a1 * b0,
    ;
    assert(c0 * c0 + c1 * c1 + c2 * c2 >= 0) by (nonlinear_arith);
}

/// `a x b` is orthogonal to both `a` and `b`, so the third column that the
/// cross product completes is orthogonal to the first two.
pub proof fn lemma_cross_is_orthogonal(a: Seq<i64>, b: Seq<i64>)
    requires
        a.len() == 3,
        b.len() == 3,
        crate::vec3::cross_req(a, b),
    ensures
        ({
            let c = crate::vec3::cross_spec(a, b);
            &&& a[0] * c[0] + a[1] * c[1] + a[2] * c[2] == 0
            &&& b[0] * c[0] + b[1] * c[1] + b[2] * c[2] == 0
        }),
{
    let c = crate::vec3::cross_spec(a, b);
    let (a0, a1, a2, b0, b1, b2) = (a[0] as int, a[1] as int, a[2] as int, b[0] as int, b[1] as int, b[2] as int);
    assert(c[0] == a1 * b2 - a2 * b1 && c[1] == a2 * b0 - a0 * b2 && c[2] == a0 * b1 - a1 * b0);
    let (c0, c1, c2) = (c[0] as int, c[1] as int, c[2] as int);
    assert(a0 * (a1 * b2 - a2 * b1) + a1 * (a2 * b0 - a0 * b2) + a2 * (a0 * b1 - a1 * b0) == 0)
        by (nonlinear_arith);
    assert(b0 * (a1 * b2 - a2 * b1) + b1 * (a2 * b0 - a0 * b2) + b2 * (a0 * b1 - a1 * b0) == 0)
        by (nonlinear_arith);
}

/// After `correct_handedness` the right singular vectors are never a
/// reflection: their determinant is not below zero.
pub proof fn lemma_corrected_v_is_proper(v: Seq<i64>, w: Seq<i64>)
    requires
        v.len() == 9,
        det_req(v),
        v[2].neg_req(),
        v[5].neg_req(),
        v[8].neg_req(),
        w == if less(det_spec(v), 0i64) {
            reflected(v)
        } else {
            v
        },
    ensures
        det_exact(w) >= 0,
{
    lemma_det_spec_exact(v);
    lemma_reflection_negates_determinant(v);
}

} // verus!
