use vstd::prelude::*;

verus! {

// The OpenGL enumeration values the engine uses, as the OpenGL registry defines them.
// The conversions below do not all follow the registry: the engine sends
// `BufferUsage::DynamicCopy` as GL_DYNAMIC_READ and the four 64-bit integer
// attribute types as GL_INT or GL_UNSIGNED_INT. These are known mistakes of
// the engine's tables, kept as they are because drivers receive exactly these
// values.
pub const GL_PARAMETER_BUFFER: u32 = 0x80EE;
pub const GL_ARRAY_BUFFER: u32 = 0x8892;
pub const GL_ELEMENT_ARRAY_BUFFER: u32 = 0x8893;
pub const GL_PIXEL_PACK_BUFFER: u32 = 0x88EB;
pub const GL_PIXEL_UNPACK_BUFFER: u32 = 0x88EC;
pub const GL_UNIFORM_BUFFER: u32 = 0x8A11;
pub const GL_TEXTURE_BUFFER: u32 = 0x8C2A;
pub const GL_TRANSFORM_FEEDBACK_BUFFER: u32 = 0x8C8E;
pub const GL_COPY_READ_BUFFER: u32 = 0x8F36;
pub const GL_COPY_WRITE_BUFFER: u32 = 0x8F37;
pub const GL_DRAW_INDIRECT_BUFFER: u32 = 0x8F3F;
pub const GL_SHADER_STORAGE_BUFFER: u32 = 0x90D2;
pub const GL_DISPATCH_INDIRECT_BUFFER: u32 = 0x90EE;
pub const GL_QUERY_BUFFER: u32 = 0x9192;
pub const GL_ATOMIC_COUNTER_BUFFER: u32 = 0x92C0;
pub const GL_STREAM_DRAW: u32 = 0x88E0;
pub const GL_STREAM_READ: u32 = 0x88E1;
pub const GL_STREAM_COPY: u32 = 0x88E2;
pub const GL_STATIC_DRAW: u32 = 0x88E4;
pub const GL_STATIC_READ: u32 = 0x88E5;
pub const GL_STATIC_COPY: u32 = 0x88E6;
pub const GL_DYNAMIC_DRAW: u32 = 0x88E8;
pub const GL_DYNAMIC_READ: u32 = 0x88E9;
pub const GL_BYTE: u32 = 0x1400;
pub const GL_UNSIGNED_BYTE: u32 = 0x1401;
pub const GL_SHORT: u32 = 0x1402;
pub const GL_UNSIGNED_SHORT: u32 = 0x1403;
pub const GL_INT: u32 = 0x1404;
pub const GL_UNSIGNED_INT: u32 = 0x1405;
pub const GL_FLOAT: u32 = 0x1406;
pub const GL_DOUBLE: u32 = 0x140A;
pub const GL_HALF_FLOAT: u32 = 0x140B;
pub const GL_FIXED: u32 = 0x140C;
pub const GL_UNSIGNED_INT_2_10_10_10_REV: u32 = 0x8368;
pub const GL_UNSIGNED_INT_10F_11F_11F_REV: u32 = 0x8C3B;
pub const GL_INT_2_10_10_10_REV: u32 = 0x8D9F;
pub const GL_POINTS: u32 = 0x0000;
pub const GL_LINES: u32 = 0x0001;
pub const GL_LINE_LOOP: u32 = 0x0002;
pub const GL_LINE_STRIP: u32 = 0x0003;
pub const GL_TRIANGLES: u32 = 0x0004;
pub const GL_TRIANGLE_STRIP: u32 = 0x0005;
pub const GL_TRIANGLE_FAN: u32 = 0x0006;
pub const GL_QUADS: u32 = 0x0007;
pub const GL_LINES_ADJACENCY: u32 = 0x000A;
pub const GL_LINE_STRIP_ADJACENCY: u32 = 0x000B;
pub const GL_TRIANGLES_ADJACENCY: u32 = 0x000C;
pub const GL_TRIANGLE_STRIP_ADJACENCY: u32 = 0x000D;
pub const GL_PATCHES: u32 = 0x000E;

/// The binding point a buffer object is bound to.
#[derive(Clone, Copy, PartialEq, Eq, Structural, Debug)]
pub enum BufferTarget {
    ParameterBuffer,
    ArrayBuffer,
    ElementArrayBuffer,
    PixelPackBuffer,
    PixelUnpackBuffer,
    UniformBuffer,
    TextureBuffer,
    TransformFeedbackBuffer,
    CopyReadBuffer,
    CopyWriteBuffer,
    DrawIndirectBuffer,
    ShaderStorageBuffer,
    DispatchIndirectBuffer,
    QueryBuffer,
    AtomicCounterBuffer,
}

impl BufferTarget {
    /// The OpenGL enumeration value passed to the driver for this variant.
    pub open spec fn spec_to_u32(&self) -> u32 {
        match self {
            BufferTarget::ParameterBuffer => GL_PARAMETER_BUFFER,
            BufferTarget::ArrayBuffer => GL_ARRAY_BUFFER,
            BufferTarget::ElementArrayBuffer => GL_ELEMENT_ARRAY_BUFFER,
            BufferTarget::PixelPackBuffer => GL_PIXEL_PACK_BUFFER,
            BufferTarget::PixelUnpackBuffer => GL_PIXEL_UNPACK_BUFFER,
            BufferTarget::UniformBuffer => GL_UNIFORM_BUFFER,
            BufferTarget::TextureBuffer => GL_TEXTURE_BUFFER,
            BufferTarget::TransformFeedbackBuffer => GL_TRANSFORM_FEEDBACK_BUFFER,
            BufferTarget::CopyReadBuffer => GL_COPY_READ_BUFFER,
            BufferTarget::CopyWriteBuffer => GL_COPY_WRITE_BUFFER,
            BufferTarget::DrawIndirectBuffer => GL_DRAW_INDIRECT_BUFFER,
            BufferTarget::ShaderStorageBuffer => GL_SHADER_STORAGE_BUFFER,
            BufferTarget::DispatchIndirectBuffer => GL_DISPATCH_INDIRECT_BUFFER,
            BufferTarget::QueryBuffer => GL_QUERY_BUFFER,
            BufferTarget::AtomicCounterBuffer => GL_ATOMIC_COUNTER_BUFFER,
        }
    }

    #[verifier::when_used_as_spec(spec_to_u32)]
    pub fn to_u32(&self) -> (r: u32)
        ensures
            r == self.spec_to_u32(),
    {
        match self {
            BufferTarget::ParameterBuffer => GL_PARAMETER_BUFFER,
            BufferTarget::ArrayBuffer => GL_ARRAY_BUFFER,
            BufferTarget::ElementArrayBuffer => GL_ELEMENT_ARRAY_BUFFER,
            BufferTarget::PixelPackBuffer => GL_PIXEL_PACK_BUFFER,
            BufferTarget::PixelUnpackBuffer => GL_PIXEL_UNPACK_BUFFER,
            BufferTarget::UniformBuffer => GL_UNIFORM_BUFFER,
            BufferTarget::TextureBuffer => GL_TEXTURE_BUFFER,
            BufferTarget::TransformFeedbackBuffer => GL_TRANSFORM_FEEDBACK_BUFFER,
            BufferTarget::CopyReadBuffer => GL_COPY_READ_BUFFER,
            BufferTarget::CopyWriteBuffer => GL_COPY_WRITE_BUFFER,
            BufferTarget::DrawIndirectBuffer => GL_DRAW_INDIRECT_BUFFER,
            BufferTarget::ShaderStorageBuffer => GL_SHADER_STORAGE_BUFFER,
            BufferTarget::DispatchIndirectBuffer => GL_DISPATCH_INDIRECT_BUFFER,
            BufferTarget::QueryBuffer => GL_QUERY_BUFFER,
            BufferTarget::AtomicCounterBuffer => GL_ATOMIC_COUNTER_BUFFER,
        }
    }
}

/// How the data store of a buffer is expected to be used.
#[derive(Clone, Copy, PartialEq, Eq, Structural, Debug)]
pub enum BufferUsage {
    StreamDraw,
    StreamRead,
    StreamCopy,
    StaticDraw,
    StaticRead,
    StaticCopy,
    DynamicDraw,
    DynamicRead,
    DynamicCopy,
}

impl BufferUsage {
    /// The OpenGL enumeration value passed to the driver for this variant;
    /// `DynamicCopy` is sent as GL_DYNAMIC_READ (a known mistake, kept).
    pub open spec fn spec_to_u32(&self) -> u32 {
        match self {
            BufferUsage::StreamDraw => GL_STREAM_DRAW,
            BufferUsage::StreamRead => GL_STREAM_READ,
            BufferUsage::StreamCopy => GL_STREAM_COPY,
            BufferUsage::StaticDraw => GL_STATIC_DRAW,
            BufferUsage::StaticRead => GL_STATIC_READ,
            BufferUsage::StaticCopy => GL_STATIC_COPY,
            BufferUsage::DynamicDraw => GL_DYNAMIC_DRAW,
            BufferUsage::DynamicRead => GL_DYNAMIC_READ,
            BufferUsage::DynamicCopy => GL_DYNAMIC_READ,
        }
    }

    #[verifier::when_used_as_spec(spec_to_u32)]
    pub fn to_u32(&self) -> (r: u32)
        ensures
            r == self.spec_to_u32(),
    {
        match self {
            BufferUsage::StreamDraw => GL_STREAM_DRAW,
            BufferUsage::StreamRead => GL_STREAM_READ,
            BufferUsage::StreamCopy => GL_STREAM_COPY,
            BufferUsage::StaticDraw => GL_STATIC_DRAW,
            BufferUsage::StaticRead => GL_STATIC_READ,
            BufferUsage::StaticCopy => GL_STATIC_COPY,
            BufferUsage::DynamicDraw => GL_DYNAMIC_DRAW,
            BufferUsage::DynamicRead => GL_DYNAMIC_READ,
            BufferUsage::DynamicCopy => GL_DYNAMIC_READ,
        }
    }
}

/// The component type of a vertex attribute.
#[derive(Clone, Copy, PartialEq, Eq, Structural, Debug)]
pub enum VertexAttributePointerType {
    Byte,
    UnsignedByte,
    Short,
    UnsignedShort,
    Int,
    UnsignedInt,
    Float,
    Double,
    HalfFloat,
    Fixed,
    Int64Arb,
    Int64NV,
    UnsignedInt64Arb,
    UnsignedInt64NV,
    UnsignedInt2101010Rev,
    UnsignedInt2101010RevExt,
    UnsignedInt10f11f11fRev,
    Int2101010Rev,
}

impl VertexAttributePointerType {
    /// The OpenGL enumeration value passed to the driver for this variant;
    /// the 64-bit integer types are sent as GL_INT and GL_UNSIGNED_INT (a
    /// known mistake, kept).
    pub open spec fn spec_to_u32(&self) -> u32 {
        match self {
            VertexAttributePointerType::Byte => GL_BYTE,
            VertexAttributePointerType::UnsignedByte => GL_UNSIGNED_BYTE,
            VertexAttributePointerType::Short => GL_SHORT,
            VertexAttributePointerType::UnsignedShort => GL_UNSIGNED_SHORT,
            VertexAttributePointerType::Int => GL_INT,
            VertexAttributePointerType::UnsignedInt => GL_UNSIGNED_INT,
            VertexAttributePointerType::Float => GL_FLOAT,
            VertexAttributePointerType::Double => GL_DOUBLE,
            VertexAttributePointerType::HalfFloat => GL_HALF_FLOAT,
            VertexAttributePointerType::Fixed => GL_FIXED,
            VertexAttributePointerType::Int64Arb => GL_INT,
            VertexAttributePointerType::Int64NV => GL_INT,
            VertexAttributePointerType::UnsignedInt64Arb => GL_UNSIGNED_INT,
            VertexAttributePointerType::UnsignedInt64NV => GL_UNSIGNED_INT,
            VertexAttributePointerType::UnsignedInt2101010Rev => GL_UNSIGNED_INT_2_10_10_10_REV,
            VertexAttributePointerType::UnsignedInt2101010RevExt => GL_UNSIGNED_INT_2_10_10_10_REV,
            VertexAttributePointerType::UnsignedInt10f11f11fRev => GL_UNSIGNED_INT_10F_11F_11F_REV,
            VertexAttributePointerType::Int2101010Rev => GL_INT_2_10_10_10_REV,
        }
    }

    #[verifier::when_used_as_spec(spec_to_u32)]
    pub fn to_u32(&self) -> (r: u32)
        ensures
            r == self.spec_to_u32(),
    {
        match self {
            VertexAttributePointerType::Byte => GL_BYTE,
            VertexAttributePointerType::UnsignedByte => GL_UNSIGNED_BYTE,
            VertexAttributePointerType::Short => GL_SHORT,
            VertexAttributePointerType::UnsignedShort => GL_UNSIGNED_SHORT,
            VertexAttributePointerType::Int => GL_INT,
            VertexAttributePointerType::UnsignedInt => GL_UNSIGNED_INT,
            VertexAttributePointerType::Float => GL_FLOAT,
            VertexAttributePointerType::Double => GL_DOUBLE,
            VertexAttributePointerType::HalfFloat => GL_HALF_FLOAT,
            VertexAttributePointerType::Fixed => GL_FIXED,
            VertexAttributePointerType::Int64Arb => GL_INT,
            VertexAttributePointerType::Int64NV => GL_INT,
            VertexAttributePointerType::UnsignedInt64Arb => GL_UNSIGNED_INT,
            VertexAttributePointerType::UnsignedInt64NV => GL_UNSIGNED_INT,
            VertexAttributePointerType::UnsignedInt2101010Rev => GL_UNSIGNED_INT_2_10_10_10_REV,
            VertexAttributePointerType::UnsignedInt2101010RevExt => GL_UNSIGNED_INT_2_10_10_10_REV,
            VertexAttributePointerType::UnsignedInt10f11f11fRev => GL_UNSIGNED_INT_10F_11F_11F_REV,
            VertexAttributePointerType::Int2101010Rev => GL_INT_2_10_10_10_REV,
        }
    }
}

/// The kind of primitive a draw call assembles.
#[derive(Clone, Copy, PartialEq, Eq, Structural, Debug)]
pub enum PrimitiveType {
    Points,
    Lines,
    LineLoop,
    LineStrip,
    Triangles,
    TriangleStrip,
    TriangleFan,
    Quads,
    QuadsExt,
    LinesAdjacency,
    LinesAdjacencyArb,
    LinesAdjacencyExt,
    LineStripAdjacency,
    LineStripAdjacencyArb,
    LineStripAdjacencyExt,
    TrianglesAdjacency,
    TrianglesAdjacencyArb,
    TrianglesAdjacencyExt,
    TriangleStripAdjacency,
    TriangleStripAdjacencyArb,
    TriangleStripAdjacencyExt,
    Patches,
    PatchesExt,
}

impl PrimitiveType {
    /// The OpenGL enumeration value passed to the driver for this variant.
    pub open spec fn spec_to_u32(&self) -> u32 {
        match self {
            PrimitiveType::Points => GL_POINTS,
            PrimitiveType::Lines => GL_LINES,
            PrimitiveType::LineLoop => GL_LINE_LOOP,
            PrimitiveType::LineStrip => GL_LINE_STRIP,
            PrimitiveType::Triangles => GL_TRIANGLES,
            PrimitiveType::TriangleStrip => GL_TRIANGLE_STRIP,
            PrimitiveType::TriangleFan => GL_TRIANGLE_FAN,
            PrimitiveType::Quads => GL_QUADS,
            PrimitiveType::QuadsExt => GL_QUADS,
            PrimitiveType::LinesAdjacency => GL_LINES_ADJACENCY,
            PrimitiveType::LinesAdjacencyArb => GL_LINES_ADJACENCY,
            PrimitiveType::LinesAdjacencyExt => GL_LINES_ADJACENCY,
            PrimitiveType::LineStripAdjacency => GL_LINE_STRIP_ADJACENCY,
            PrimitiveType::LineStripAdjacencyArb => GL_LINE_STRIP_ADJACENCY,
            PrimitiveType::LineStripAdjacencyExt => GL_LINE_STRIP_ADJACENCY,
            PrimitiveType::TrianglesAdjacency => GL_TRIANGLES_ADJACENCY,
            PrimitiveType::TrianglesAdjacencyArb => GL_TRIANGLES_ADJACENCY,
            PrimitiveType::TrianglesAdjacencyExt => GL_TRIANGLES_ADJACENCY,
            PrimitiveType::TriangleStripAdjacency => GL_TRIANGLE_STRIP_ADJACENCY,
            PrimitiveType::TriangleStripAdjacencyArb => GL_TRIANGLE_STRIP_ADJACENCY,
            PrimitiveType::TriangleStripAdjacencyExt => GL_TRIANGLE_STRIP_ADJACENCY,
            PrimitiveType::Patches => GL_PATCHES,
            PrimitiveType::PatchesExt => GL_PATCHES,
        }
    }

    #[verifier::when_used_as_spec(spec_to_u32)]
    pub fn to_u32(&self) -> (r: u32)
        ensures
            r == self.spec_to_u32(),
    {
        match self {
            PrimitiveType::Points => GL_POINTS,
            PrimitiveType::Lines => GL_LINES,
            PrimitiveType::LineLoop => GL_LINE_LOOP,
            PrimitiveType::LineStrip => GL_LINE_STRIP,
            PrimitiveType::Triangles => GL_TRIANGLES,
            PrimitiveType::TriangleStrip => GL_TRIANGLE_STRIP,
            PrimitiveType::TriangleFan => GL_TRIANGLE_FAN,
            PrimitiveType::Quads => GL_QUADS,
            PrimitiveType::QuadsExt => GL_QUADS,
            PrimitiveType::LinesAdjacency => GL_LINES_ADJACENCY,
            PrimitiveType::LinesAdjacencyArb => GL_LINES_ADJACENCY,
            PrimitiveType::LinesAdjacencyExt => GL_LINES_ADJACENCY,
            PrimitiveType::LineStripAdjacency => GL_LINE_STRIP_ADJACENCY,
            PrimitiveType::LineStripAdjacencyArb => GL_LINE_STRIP_ADJACENCY,
            PrimitiveType::LineStripAdjacencyExt => GL_LINE_STRIP_ADJACENCY,
            PrimitiveType::TrianglesAdjacency => GL_TRIANGLES_ADJACENCY,
            PrimitiveType::TrianglesAdjacencyArb => GL_TRIANGLES_ADJACENCY,
            PrimitiveType::TrianglesAdjacencyExt => GL_TRIANGLES_ADJACENCY,
            PrimitiveType::TriangleStripAdjacency => GL_TRIANGLE_STRIP_ADJACENCY,
            PrimitiveType::TriangleStripAdjacencyArb => GL_TRIANGLE_STRIP_ADJACENCY,
            PrimitiveType::TriangleStripAdjacencyExt => GL_TRIANGLE_STRIP_ADJACENCY,
            PrimitiveType::Patches => GL_PATCHES,
            PrimitiveType::PatchesExt => GL_PATCHES,
        }
    }
}

/// The type of the values in an index buffer.
#[derive(Clone, Copy, PartialEq, Eq, Structural, Debug)]
pub enum DrawElementType {
    UnsignedByte,
    UnsignedShort,
    UnsignedInt,
}

impl DrawElementType {
    /// The OpenGL enumeration value passed to the driver for this variant.
    pub open spec fn spec_to_u32(&self) -> u32 {
        match self {
            DrawElementType::UnsignedByte => GL_UNSIGNED_BYTE,
            DrawElementType::UnsignedShort => GL_UNSIGNED_SHORT,
            DrawElementType::UnsignedInt => GL_UNSIGNED_INT,
        }
    }

    #[verifier::when_used_as_spec(spec_to_u32)]
    pub fn to_u32(&self) -> (r: u32)
        ensures
            r == self.spec_to_u32(),
    {
        match self {
            DrawElementType::UnsignedByte => GL_UNSIGNED_BYTE,
            DrawElementType::UnsignedShort => GL_UNSIGNED_SHORT,
            DrawElementType::UnsignedInt => GL_UNSIGNED_INT,
        }
    }
}

} // verus!
