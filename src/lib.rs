//! Small fixed-size linear algebra for geometry processing: 2D and 3D vectors,
//! 2x3, 3x3 and 4x4 matrices, triangle normals, and the building blocks of the
//! singular value decomposition of a 3x3 matrix (the packed normal matrix,
//! the sorting of eigen-pairs, the column products and the handedness
//! corrections).
//!
//! Every function is generic over its scalar type and states its result with
//! vstd's specifications of the std operator traits (see `arith`), so the
//! contracts are exact for the machine integers and the same code runs on
//! floating-point scalars.
use vstd::prelude::*;

pub mod arith;
pub mod mat2x3_col_major;
pub mod mat3_row_major;
pub mod mat4;
pub mod tri3;
pub mod vec2;
pub mod vec3;

verus! {

} // verus!
