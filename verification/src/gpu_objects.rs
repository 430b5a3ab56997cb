use crate::gl_enums::{BufferTarget, VertexAttributePointerType};
use vstd::prelude::*;

verus! {

/// The bytes of one 32-bit word, least significant first.
pub open spec fn le_bytes(w: u32) -> Seq<u8> {
    seq![(w & 0xff) as u8, ((w >> 8u32) & 0xff) as u8, ((w >> 16u32) & 0xff) as u8, ((w >> 24u32) & 0xff) as u8]
}

/// The bytes of one 32-bit word, most significant first.
pub open spec fn be_bytes(w: u32) -> Seq<u8> {
    seq![((w >> 24u32) & 0xff) as u8, ((w >> 16u32) & 0xff) as u8, ((w >> 8u32) & 0xff) as u8, (w & 0xff) as u8]
}

/// Words laid out in memory in little-endian order.
pub open spec fn words_le_bytes(words: Seq<u32>) -> Seq<u8>
    decreases words.len(),
{
    if words.len() == 0 {
        seq![]
    } else {
        words_le_bytes(words.drop_last()) + le_bytes(words.last())
    }
}

/// Words laid out in memory in big-endian order.
pub open spec fn words_be_bytes(words: Seq<u32>) -> Seq<u8>
    decreases words.len(),
{
    if words.len() == 0 {
        seq![]
    } else {
        words_be_bytes(words.drop_last()) + be_bytes(words.last())
    }
}

/// `bytemuck::cast_slice::<u32, u8>`, copied into a vector: the memory of the
/// words read as bytes. The cast cannot fail from `u32` to `u8` (the sizes
/// divide and `u8` has alignment one). The bytes of each word come in the
/// machine's byte order, which is one of the two orders for every word; which
/// one is not stated, as it depends on the machine.
#[verifier::external_body]
pub(crate) fn words_as_bytes(words: &[u32]) -> (r: Vec<u8>)
    ensures
        r@ == words_le_bytes(words@) || r@ == words_be_bytes(words@),
{
    bytemuck::cast_slice::<u32, u8>(words).to_vec()
}

/// A buffer object: the name the driver gave it and the target it binds to.
pub struct BufferObject {
    buffer: u32,
    target: BufferTarget,
}

impl BufferObject {
    pub closed spec fn spec_buffer(&self) -> u32 {
        self.buffer
    }

    pub closed spec fn spec_target(&self) -> BufferTarget {
        self.target
    }

    /// Wraps a buffer name created by the driver.
    pub fn from_name(buffer: u32, target: BufferTarget) -> (r: Self)
        ensures
            r.spec_buffer() == buffer,
            r.spec_target() == target,
    {
        BufferObject { buffer, target }
    }

    pub fn buffer(&self) -> (r: u32)
        ensures
            r == self.spec_buffer(),
    {
        self.buffer
    }

    /// The OpenGL target this buffer binds to.
    pub fn target_u32(&self) -> (r: u32)
        ensures
            r == self.spec_target().spec_to_u32(),
    {
        self.target.to_u32()
    }
}

/// A buffer of vertex data, bound to the array buffer target.
#[derive(Clone, Copy, PartialEq, Eq, Structural, Debug)]
pub struct VertexBufferObject {
    pub buffer: u32,
}

/// A buffer of indices, bound to the element array buffer target.
#[derive(Clone, Copy, PartialEq, Eq, Structural, Debug)]
pub struct IndexBufferObject {
    pub buffer: u32,
}

impl VertexBufferObject {
    /// The target a vertex buffer binds to.
    pub fn target(&self) -> (r: BufferTarget)
        ensures
            r == BufferTarget::ArrayBuffer,
    {
        BufferTarget::ArrayBuffer
    }
}

impl IndexBufferObject {
    /// The target an index buffer binds to.
    pub fn target(&self) -> (r: BufferTarget)
        ensures
            r == BufferTarget::ElementArrayBuffer,
    {
        BufferTarget::ElementArrayBuffer
    }
}

/// A vertex array object together with the vertex and index buffers it draws from.
#[derive(Clone, Copy, PartialEq, Eq, Structural, Debug)]
pub struct VertexArrayObject {
    pub vertex_array: u32,
    pub vertex_buffer: VertexBufferObject,
    pub index_buffer: IndexBufferObject,
}

impl VertexArrayObject {
    pub fn create(
        vertex_array: u32,
        vertex_buffer: VertexBufferObject,
        index_buffer: IndexBufferObject,
    ) -> (r: Self)
        ensures
            r == (VertexArrayObject { vertex_array, vertex_buffer, index_buffer }),
    {
        VertexArrayObject { vertex_array, vertex_buffer, index_buffer }
    }
}

/// The size in bytes of one `f32` component.
pub const FLOAT_SIZE: i32 = 4;

/// One call that describes a vertex attribute to the driver: attribute
/// `index` has `count` components of `pointer_type`, vertices are
/// `vertex_size` components apart and the attribute starts `offset`
/// components into a vertex.
#[derive(Clone, Copy, PartialEq, Eq, Structural, Debug)]
pub struct VertexAttributePointer {
    pub index: u32,
    pub count: i32,
    pub pointer_type: VertexAttributePointerType,
    pub vertex_size: i32,
    pub offset: i32,
}

impl VertexAttributePointer {
    /// The distance in bytes between two vertices.
    pub fn byte_stride(&self) -> (r: i32)
        requires
            i32::MIN <= self.vertex_size * FLOAT_SIZE <= i32::MAX,
        ensures
            r == self.vertex_size * FLOAT_SIZE,
    {
        self.vertex_size * FLOAT_SIZE
    }

    /// The offset in bytes of the attribute within a vertex.
    pub fn byte_offset(&self) -> (r: i32)
        requires
            i32::MIN <= self.offset * FLOAT_SIZE <= i32::MAX,
        ensures
            r == self.offset * FLOAT_SIZE,
    {
        self.offset * FLOAT_SIZE
    }
}

} // verus!

verus! {

/// A linked shader program, by the name the driver gave it.
#[derive(Clone, Copy, PartialEq, Eq, Structural, Debug)]
pub struct Shader {
    pub program: u32,
}

/// A 2D texture, by the name the driver gave it.
#[derive(Clone, Copy, PartialEq, Eq, Structural, Debug)]
pub struct Texture {
    pub texture: u32,
}

pub type ShaderInternalId = u32;

pub type TextureInternalId = u32;

} // verus!
