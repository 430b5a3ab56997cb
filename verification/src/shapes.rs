use crate::maths::{Float2, Float3, F32_ONE_BITS, F32_ZERO_BITS};
use vstd::prelude::*;

verus! {

/// How a quad is placed: its scale and offset per axis (as `f32` bits).
#[derive(Clone, Copy, PartialEq, Eq, Structural, Debug)]
pub struct QuadSettings {
    pub scale: Float3,
    pub offset: Float3,
}

/// The indices of the two triangles of a quad over its four corners.
pub fn quad_indices() -> (r: [u32; 6])
    ensures
        r@ == seq![0u32, 1, 2, 2, 3, 0],
{
    let r: [u32; 6] = [0, 1, 2, 2, 3, 0];
    assert(r@ =~= seq![0u32, 1, 2, 2, 3, 0]);
    r
}

/// The normal of each corner of a quad: the unit y axis.
pub fn quad_normals() -> (r: [Float3; 4])
    ensures
        r@ == seq![Float3 { x: F32_ZERO_BITS, y: F32_ONE_BITS, z: F32_ZERO_BITS }; 4],
{
    let up = Float3::new(F32_ZERO_BITS, F32_ONE_BITS, F32_ZERO_BITS);
    let r: [Float3; 4] = [up, up, up, up];
    assert(r@ =~= seq![Float3 { x: F32_ZERO_BITS, y: F32_ONE_BITS, z: F32_ZERO_BITS }; 4]);
    r
}

/// The texture coordinates of the corners of a quad: (0, 0), (1, 0), (1, 1), (0, 1).
pub fn quad_uvs() -> (r: [Float2; 4])
    ensures
        r@ == seq![
            Float2 { x: F32_ZERO_BITS, y: F32_ZERO_BITS },
            Float2 { x: F32_ONE_BITS, y: F32_ZERO_BITS },
            Float2 { x: F32_ONE_BITS, y: F32_ONE_BITS },
            Float2 { x: F32_ZERO_BITS, y: F32_ONE_BITS },
        ],
{
    let r: [Float2; 4] = [
        Float2::new(F32_ZERO_BITS, F32_ZERO_BITS),
        Float2::new(F32_ONE_BITS, F32_ZERO_BITS),
        Float2::new(F32_ONE_BITS, F32_ONE_BITS),
        Float2::new(F32_ZERO_BITS, F32_ONE_BITS),
    ];
    assert(r@ =~= seq![
        Float2 { x: F32_ZERO_BITS, y: F32_ZERO_BITS },
        Float2 { x: F32_ONE_BITS, y: F32_ZERO_BITS },
        Float2 { x: F32_ONE_BITS, y: F32_ONE_BITS },
        Float2 { x: F32_ZERO_BITS, y: F32_ONE_BITS },
    ]);
    r
}

} // verus!
