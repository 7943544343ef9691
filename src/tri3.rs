//! 3D triangles given by their corner points.
use crate::vec3::{cross_req, cross_spec};
use vstd::prelude::*;
use vstd::std_specs::convert::FromSpec;
use vstd::std_specs::ops::{MulSpec, SubSpec};

verus! {

/// `b - a`, componentwise.
pub open spec fn edge<T>(a: Seq<T>, b: Seq<T>) -> Seq<T>
    where
        T: std::ops::Sub<Output = T>,
{
    seq![b[0].sub_spec(a[0]), b[1].sub_spec(a[1]), b[2].sub_spec(a[2])]
}

pub open spec fn edge_req<T>(a: Seq<T>, b: Seq<T>) -> bool
    where
        T: std::ops::Sub<Output = T>,
{
    b[0].sub_req(a[0]) && b[1].sub_req(a[1]) && b[2].sub_req(a[2])
}

/// Normal vector of the triangle (v1, v2, v3): `(v2 - v1) x (v3 - v1)`, whose
/// length is twice the triangle's area.
pub fn normal<T>(v1: &[T; 3], v2: &[T; 3], v3: &[T; 3]) -> (r: [T; 3])
    where
        T: std::ops::Sub<Output = T> + std::ops::Mul<Output = T> + std::ops::Sub + Copy,
    requires
        T::obeys_sub_spec(),
        T::obeys_mul_spec(),
        edge_req(v1@, v2@),
        edge_req(v1@, v3@),
        cross_req(edge(v1@, v2@), edge(v1@, v3@)),
    ensures
        r@ == cross_spec(edge(v1@, v2@), edge(v1@, v3@)),
{
    let r = [
        (v2[1] - v1[1]) * (v3[2] - v1[2]) - (v2[2] - v1[2]) * (v3[1] - v1[1]),
        (v2[2] - v1[2]) * (v3[0] - v1[0]) - (v2[0] - v1[0]) * (v3[2] - v1[2]),
        (v2[0] - v1[0]) * (v3[1] - v1[1]) - (v2[1] - v1[1]) * (v3[0] - v1[0]),
    ];
    assert(r@ =~= cross_spec(edge(v1@, v2@), edge(v1@, v3@)));
    r
}

/// Element matrix of the graph Laplacian of a triangle whose edges all have
/// weight `l`: `2 l` on the diagonal and `-l` off it.
pub fn emat_graph_laplacian<T>(l: T) -> (r: [[[T; 1]; 3]; 3])
    where
        T: std::ops::Mul<Output = T> + From<i8> + Copy,
    requires
        T::obeys_mul_spec(),
        <T as FromSpec<i8>>::obeys_from_spec(),
        T::from_spec(-1i8).mul_req(l),
        T::from_spec(2i8).mul_req(l),
    ensures
        forall|i: int, j: int|
            0 <= i < 3 && 0 <= j < 3 ==> #[trigger] r[i][j][0] == if i == j {
                T::from_spec(2i8).mul_spec(l)
            } else {
                T::from_spec(-1i8).mul_spec(l)
            },
{
    let vo = T::from(-1i8) * l;
    let vd = T::from(2i8) * l;
    let r = [[[vd], [vo], [vo]], [[vo], [vd], [vo]], [[vo], [vo], [vd]]];
    assert forall|i: int, j: int| 0 <= i < 3 && 0 <= j < 3 implies #[trigger] r[i][j][0] == if i
        == j {
        T::from_spec(2i8).mul_spec(l)
    } else {
        T::from_spec(-1i8).mul_spec(l)
    } by {
        assert(i == 0 || i == 1 || i == 2);
        assert(j == 0 || j == 1 || j == 2);
    }
    r
}

} // verus!
