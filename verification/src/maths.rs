use vstd::prelude::*;

verus! {

/// The bit pattern of a 32-bit IEEE-754 float (`f32::to_bits`).
/// The library stores and moves floating-point values but never computes with
/// them, so it holds them by their bits; the caller converts at the edge.
pub type F32Bits = u32;

/// Bits of `0.0f32`.
pub const F32_ZERO_BITS: F32Bits = 0x0000_0000;

/// Bits of `1.0f32`.
pub const F32_ONE_BITS: F32Bits = 0x3F80_0000;

#[derive(Clone, Copy, PartialEq, Eq, Structural, Debug)]
pub struct Float2 {
    pub x: F32Bits,
    pub y: F32Bits,
}

#[derive(Clone, Copy, PartialEq, Eq, Structural, Debug)]
pub struct Float3 {
    pub x: F32Bits,
    pub y: F32Bits,
    pub z: F32Bits,
}

#[derive(Clone, Copy, PartialEq, Eq, Structural, Debug)]
pub struct Float4 {
    pub x: F32Bits,
    pub y: F32Bits,
    pub z: F32Bits,
    pub w: F32Bits,
}

impl Float2 {
    pub fn new(x: F32Bits, y: F32Bits) -> (r: Self)
        ensures
            r == (Float2 { x, y }),
    {
        Self { x, y }
    }
}

impl Float3 {
    pub fn new(x: F32Bits, y: F32Bits, z: F32Bits) -> (r: Self)
        ensures
            r == (Float3 { x, y, z }),
    {
        Self { x, y, z }
    }
}

/// Position, rotation (a quaternion x, y, z, w) and scale of an object.
#[derive(Clone, Copy, PartialEq, Eq, Structural, Debug)]
pub struct Transform {
    position: Float3,
    rotation: Float4,
    scale: Float3,
}

impl Transform {
    pub closed spec fn spec_position(&self) -> Float3 {
        self.position
    }

    pub closed spec fn spec_rotation(&self) -> Float4 {
        self.rotation
    }

    pub closed spec fn spec_scale(&self) -> Float3 {
        self.scale
    }

    /// The identity transform: at the origin, not rotated, unit scale.
    pub closed spec fn spec_default() -> Transform {
        Transform {
            position: Float3 { x: F32_ZERO_BITS, y: F32_ZERO_BITS, z: F32_ZERO_BITS },
            rotation: Float4 {
                x: F32_ZERO_BITS,
                y: F32_ZERO_BITS,
                z: F32_ZERO_BITS,
                w: F32_ONE_BITS,
            },
            scale: Float3 { x: F32_ONE_BITS, y: F32_ONE_BITS, z: F32_ONE_BITS },
        }
    }

    /// The identity transform.
    pub fn default() -> (r: Self)
        ensures
            r == Transform::spec_default(),
            r.spec_position() == (Float3 { x: F32_ZERO_BITS, y: F32_ZERO_BITS, z: F32_ZERO_BITS }),
            r.spec_rotation() == (Float4 {
                x: F32_ZERO_BITS,
                y: F32_ZERO_BITS,
                z: F32_ZERO_BITS,
                w: F32_ONE_BITS,
            }),
            r.spec_scale() == (Float3 { x: F32_ONE_BITS, y: F32_ONE_BITS, z: F32_ONE_BITS }),
    {
        Transform {
            position: Float3 { x: F32_ZERO_BITS, y: F32_ZERO_BITS, z: F32_ZERO_BITS },
            rotation: Float4 {
                x: F32_ZERO_BITS,
                y: F32_ZERO_BITS,
                z: F32_ZERO_BITS,
                w: F32_ONE_BITS,
            },
            scale: Float3 { x: F32_ONE_BITS, y: F32_ONE_BITS, z: F32_ONE_BITS },
        }
    }

    /// Two transforms are the same value exactly when their parts are.
    pub proof fn lemma_parts_determine(a: Transform, b: Transform)
        ensures
            (a.spec_position() == b.spec_position() && a.spec_rotation() == b.spec_rotation()
                && a.spec_scale() == b.spec_scale()) <==> a == b,
    {
    }

    pub fn new(position: Float3, rotation: Float4, scale: Float3) -> (r: Self)
        ensures
            r.spec_position() == position,
            r.spec_rotation() == rotation,
            r.spec_scale() == scale,
    {
        Transform { position, rotation, scale }
    }

    pub fn position(&self) -> (r: Float3)
        ensures
            r == self.spec_position(),
    {
        self.position
    }

    pub fn rotation(&self) -> (r: Float4)
        ensures
            r == self.spec_rotation(),
    {
        self.rotation
    }

    pub fn scale(&self) -> (r: Float3)
        ensures
            r == self.spec_scale(),
    {
        self.scale
    }
}

} // verus!
