use psionic::geometry::{
    ElementsRenderableObject, Vertex, VertexAttribute, VertexAttributesLayout,
    VertexAttributesLayoutItem, VertexCollection,
};
use psionic::gpu_objects::{BufferObject, IndexBufferObject, VertexArrayObject, VertexBufferObject};
use psionic::gl_enums::BufferTarget;
use psionic::maths::{Float2, Float3, Transform};
use psionic::templates::MeshPrimitiveTemplate;

fn bits(x: f32) -> u32 {
    x.to_bits()
}

fn two_vertices() -> Vec<Vertex> {
    vec![
        Vertex {
            attributes: vec![
                VertexAttribute::Float3(Float3::new(bits(1.0), bits(2.0), bits(3.0))),
                VertexAttribute::Float2(Float2::new(bits(0.5), bits(0.25))),
            ],
        },
        Vertex {
            attributes: vec![
                VertexAttribute::Float3(Float3::new(bits(-1.0), bits(-2.0), bits(-3.0))),
                VertexAttribute::Absent,
                VertexAttribute::Float(bits(9.0)),
            ],
        },
    ]
}

#[test]
fn vertex_data_is_interleaved_components() {
    let layout = VertexAttributesLayout {
        size: 5,
        items: vec![
            VertexAttributesLayoutItem { count: 3, active: true },
            VertexAttributesLayoutItem { count: 2, active: true },
        ],
    };
    let vc = VertexCollection::new(layout, two_vertices(), vec![0, 1, 0]);
    let expected: Vec<u32> = [1.0f32, 2.0, 3.0, 0.5, 0.25, -1.0, -2.0, -3.0, 9.0]
        .iter()
        .map(|f| f.to_bits())
        .collect();
    assert_eq!(vc.data_as_slice().to_vec(), expected);
    assert_eq!(vc.indices_as_slice().to_vec(), vec![0, 1, 0]);
    assert_eq!(vc.get_indices_count(), 3);
    assert_eq!(vc.vertex_size(), 5);
    assert_eq!(vc.get_layout_items().len(), 2);
}

#[test]
fn vertex_bytes_are_the_words_in_memory_order() {
    let layout = VertexAttributesLayout { size: 1, items: vec![VertexAttributesLayoutItem { count: 1, active: true }] };
    let vc = VertexCollection::new(
        layout,
        vec![Vertex { attributes: vec![VertexAttribute::Float(bits(1.0))] }],
        vec![0x0102_0304],
    );
    let expected_data: Vec<u8> = 1.0f32.to_ne_bytes().to_vec();
    assert_eq!(vc.data_as_bytes(), expected_data);
    let expected_indices: Vec<u8> = 0x0102_0304u32.to_ne_bytes().to_vec();
    assert_eq!(vc.indices_as_bytes(), expected_indices);
    // Not the words handed back unchanged: four bytes per word.
    assert_eq!(vc.indices_as_bytes().len(), 4);
}

#[test]
fn duplicated_layout_is_equal() {
    let layout = VertexAttributesLayout {
        size: 3,
        items: vec![VertexAttributesLayoutItem { count: 3, active: true }],
    };
    let copy = layout.duplicate();
    assert_eq!(copy.size, 3);
    assert_eq!(copy.items, layout.items);
}

#[test]
fn elements_object_counts_the_primitive_indices() {
    let layout = VertexAttributesLayout { size: 5, items: vec![VertexAttributesLayoutItem { count: 5, active: true }] };
    let primitive = MeshPrimitiveTemplate {
        id: 7,
        vertices: VertexCollection::new(layout, two_vertices(), vec![0, 1, 1, 0]),
        indices: vec![],
        local_transform: Transform::default(),
        material_id: 9,
    };
    let voa = VertexArrayObject::create(11, VertexBufferObject { buffer: 12 }, IndexBufferObject { buffer: 13 });
    let ero = ElementsRenderableObject::from_mesh_primitive(&primitive, voa);
    assert_eq!(ero.indices_count, 4);
    assert_eq!(ero.voa, voa);
    assert_eq!(ero.layout.size, 5);
}

#[test]
fn buffers_bind_to_their_targets() {
    let b = BufferObject::from_name(5, BufferTarget::UniformBuffer);
    assert_eq!(b.buffer(), 5);
    assert_eq!(b.target_u32(), glow::UNIFORM_BUFFER);
    assert_eq!(VertexBufferObject { buffer: 1 }.target(), BufferTarget::ArrayBuffer);
    assert_eq!(IndexBufferObject { buffer: 1 }.target(), BufferTarget::ElementArrayBuffer);
}

#[test]
fn attribute_pointer_bytes() {
    let p = psionic::gpu_objects::VertexAttributePointer {
        index: 2,
        count: 1,
        pointer_type: psionic::gl_enums::VertexAttributePointerType::Float,
        vertex_size: 8,
        offset: 7,
    };
    assert_eq!(p.byte_offset(), 28);
    assert_eq!(p.byte_stride(), 32);
}

#[test]
fn attribute_pointers_skip_inactive_items() {
    let layout = VertexAttributesLayout {
        size: 8,
        items: vec![
            VertexAttributesLayoutItem { count: 3, active: true },
            VertexAttributesLayoutItem { count: 2, active: false },
            VertexAttributesLayoutItem { count: 4, active: true },
            VertexAttributesLayoutItem { count: 1, active: true },
        ],
    };
    let pointers = layout.attribute_pointers();
    assert_eq!(pointers.len(), 3);
    assert_eq!((pointers[0].index, pointers[0].count, pointers[0].offset), (0, 3, 0));
    assert_eq!((pointers[1].index, pointers[1].count, pointers[1].offset), (1, 4, 3));
    assert_eq!((pointers[2].index, pointers[2].count, pointers[2].offset), (2, 1, 7));
    for p in &pointers {
        assert_eq!(p.vertex_size, 8);
        assert_eq!(p.pointer_type, psionic::gl_enums::VertexAttributePointerType::Float);
    }
}

#[test]
fn cloned_collection_keeps_its_data() {
    let layout = VertexAttributesLayout { size: 5, items: vec![VertexAttributesLayoutItem { count: 5, active: true }] };
    let vc = VertexCollection::new(layout, two_vertices(), vec![0, 1, 0]);
    let copy = vc.clone();
    assert_eq!(copy.data_as_slice(), vc.data_as_slice());
    assert_eq!(copy.indices_as_slice(), vc.indices_as_slice());
    assert_eq!(copy.vertex_size(), 5);
    assert_eq!(copy.get_layout_items(), vc.get_layout_items());
}
