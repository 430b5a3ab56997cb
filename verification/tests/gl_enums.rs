use psionic::gl_enums::{BufferTarget, BufferUsage, DrawElementType, PrimitiveType, VertexAttributePointerType};

#[test]
fn buffer_targets_match_opengl() {
    assert_eq!(BufferTarget::ParameterBuffer.to_u32(), glow::PARAMETER_BUFFER);
    assert_eq!(BufferTarget::ArrayBuffer.to_u32(), glow::ARRAY_BUFFER);
    assert_eq!(BufferTarget::ElementArrayBuffer.to_u32(), glow::ELEMENT_ARRAY_BUFFER);
    assert_eq!(BufferTarget::PixelPackBuffer.to_u32(), glow::PIXEL_PACK_BUFFER);
    assert_eq!(BufferTarget::PixelUnpackBuffer.to_u32(), glow::PIXEL_UNPACK_BUFFER);
    assert_eq!(BufferTarget::UniformBuffer.to_u32(), glow::UNIFORM_BUFFER);
    assert_eq!(BufferTarget::TextureBuffer.to_u32(), glow::TEXTURE_BUFFER);
    assert_eq!(BufferTarget::TransformFeedbackBuffer.to_u32(), glow::TRANSFORM_FEEDBACK_BUFFER);
    assert_eq!(BufferTarget::CopyReadBuffer.to_u32(), glow::COPY_READ_BUFFER);
    assert_eq!(BufferTarget::CopyWriteBuffer.to_u32(), glow::COPY_WRITE_BUFFER);
    assert_eq!(BufferTarget::DrawIndirectBuffer.to_u32(), glow::DRAW_INDIRECT_BUFFER);
    assert_eq!(BufferTarget::ShaderStorageBuffer.to_u32(), glow::SHADER_STORAGE_BUFFER);
    assert_eq!(BufferTarget::DispatchIndirectBuffer.to_u32(), glow::DISPATCH_INDIRECT_BUFFER);
    assert_eq!(BufferTarget::QueryBuffer.to_u32(), glow::QUERY_BUFFER);
    assert_eq!(BufferTarget::AtomicCounterBuffer.to_u32(), glow::ATOMIC_COUNTER_BUFFER);
}

#[test]
fn buffer_usages_match_opengl() {
    assert_eq!(BufferUsage::StreamDraw.to_u32(), glow::STREAM_DRAW);
    assert_eq!(BufferUsage::StreamRead.to_u32(), glow::STREAM_READ);
    assert_eq!(BufferUsage::StreamCopy.to_u32(), glow::STREAM_COPY);
    assert_eq!(BufferUsage::StaticDraw.to_u32(), glow::STATIC_DRAW);
    assert_eq!(BufferUsage::StaticRead.to_u32(), glow::STATIC_READ);
    assert_eq!(BufferUsage::StaticCopy.to_u32(), glow::STATIC_COPY);
    assert_eq!(BufferUsage::DynamicDraw.to_u32(), glow::DYNAMIC_DRAW);
    assert_eq!(BufferUsage::DynamicRead.to_u32(), glow::DYNAMIC_READ);
    // The dynamic copy usage is passed to the driver as dynamic read.
    assert_eq!(BufferUsage::DynamicCopy.to_u32(), glow::DYNAMIC_READ);
}

#[test]
fn attribute_pointer_types_match_opengl() {
    assert_eq!(VertexAttributePointerType::Byte.to_u32(), glow::BYTE);
    assert_eq!(VertexAttributePointerType::UnsignedByte.to_u32(), glow::UNSIGNED_BYTE);
    assert_eq!(VertexAttributePointerType::Short.to_u32(), glow::SHORT);
    assert_eq!(VertexAttributePointerType::UnsignedShort.to_u32(), glow::UNSIGNED_SHORT);
    assert_eq!(VertexAttributePointerType::Int.to_u32(), glow::INT);
    assert_eq!(VertexAttributePointerType::UnsignedInt.to_u32(), glow::UNSIGNED_INT);
    assert_eq!(VertexAttributePointerType::Float.to_u32(), glow::FLOAT);
    assert_eq!(VertexAttributePointerType::Double.to_u32(), glow::DOUBLE);
    assert_eq!(VertexAttributePointerType::HalfFloat.to_u32(), glow::HALF_FLOAT);
    assert_eq!(VertexAttributePointerType::Fixed.to_u32(), glow::FIXED);
    assert_eq!(VertexAttributePointerType::Int64Arb.to_u32(), glow::INT);
    assert_eq!(VertexAttributePointerType::Int64NV.to_u32(), glow::INT);
    assert_eq!(VertexAttributePointerType::UnsignedInt64Arb.to_u32(), glow::UNSIGNED_INT);
    assert_eq!(VertexAttributePointerType::UnsignedInt64NV.to_u32(), glow::UNSIGNED_INT);
    assert_eq!(
        VertexAttributePointerType::UnsignedInt2101010Rev.to_u32(),
        glow::UNSIGNED_INT_2_10_10_10_REV
    );
    assert_eq!(
        VertexAttributePointerType::UnsignedInt2101010RevExt.to_u32(),
        glow::UNSIGNED_INT_2_10_10_10_REV
    );
    assert_eq!(
        VertexAttributePointerType::UnsignedInt10f11f11fRev.to_u32(),
        glow::UNSIGNED_INT_10F_11F_11F_REV
    );
    assert_eq!(VertexAttributePointerType::Int2101010Rev.to_u32(), glow::INT_2_10_10_10_REV);
}

#[test]
fn primitive_types_match_opengl() {
    assert_eq!(PrimitiveType::Points.to_u32(), glow::POINTS);
    assert_eq!(PrimitiveType::Lines.to_u32(), glow::LINES);
    assert_eq!(PrimitiveType::LineLoop.to_u32(), glow::LINE_LOOP);
    assert_eq!(PrimitiveType::LineStrip.to_u32(), glow::LINE_STRIP);
    assert_eq!(PrimitiveType::Triangles.to_u32(), glow::TRIANGLES);
    assert_eq!(PrimitiveType::TriangleStrip.to_u32(), glow::TRIANGLE_STRIP);
    assert_eq!(PrimitiveType::TriangleFan.to_u32(), glow::TRIANGLE_FAN);
    assert_eq!(PrimitiveType::Quads.to_u32(), glow::QUADS);
    assert_eq!(PrimitiveType::QuadsExt.to_u32(), glow::QUADS);
    assert_eq!(PrimitiveType::LinesAdjacency.to_u32(), glow::LINES_ADJACENCY);
    assert_eq!(PrimitiveType::LinesAdjacencyArb.to_u32(), glow::LINES_ADJACENCY);
    assert_eq!(PrimitiveType::LinesAdjacencyExt.to_u32(), glow::LINES_ADJACENCY);
    assert_eq!(PrimitiveType::LineStripAdjacency.to_u32(), glow::LINE_STRIP_ADJACENCY);
    assert_eq!(PrimitiveType::LineStripAdjacencyArb.to_u32(), glow::LINE_STRIP_ADJACENCY);
    assert_eq!(PrimitiveType::LineStripAdjacencyExt.to_u32(), glow::LINE_STRIP_ADJACENCY);
    assert_eq!(PrimitiveType::TrianglesAdjacency.to_u32(), glow::TRIANGLES_ADJACENCY);
    assert_eq!(PrimitiveType::TrianglesAdjacencyArb.to_u32(), glow::TRIANGLES_ADJACENCY);
    assert_eq!(PrimitiveType::TrianglesAdjacencyExt.to_u32(), glow::TRIANGLES_ADJACENCY);
    assert_eq!(PrimitiveType::TriangleStripAdjacency.to_u32(), glow::TRIANGLE_STRIP_ADJACENCY);
    assert_eq!(PrimitiveType::TriangleStripAdjacencyArb.to_u32(), glow::TRIANGLE_STRIP_ADJACENCY);
    assert_eq!(PrimitiveType::TriangleStripAdjacencyExt.to_u32(), glow::TRIANGLE_STRIP_ADJACENCY);
    assert_eq!(PrimitiveType::Patches.to_u32(), glow::PATCHES);
    assert_eq!(PrimitiveType::PatchesExt.to_u32(), glow::PATCHES);
}

#[test]
fn draw_element_types_match_opengl() {
    assert_eq!(DrawElementType::UnsignedByte.to_u32(), glow::UNSIGNED_BYTE);
    assert_eq!(DrawElementType::UnsignedShort.to_u32(), glow::UNSIGNED_SHORT);
    assert_eq!(DrawElementType::UnsignedInt.to_u32(), glow::UNSIGNED_INT);
}
