use psionic::geometry::{Vertex, VertexAttribute, VertexAttributesLayout, VertexAttributesLayoutItem};
use psionic::gpu_objects::{IndexBufferObject, VertexArrayObject, VertexBufferObject};
use psionic::maths::{Float3, Transform};
use psionic::models::{MeshBuilder, MeshPrimitiveBuilder, ModelBuilder, ModelStore};

fn voa(n: u32) -> VertexArrayObject {
    VertexArrayObject::create(n, VertexBufferObject { buffer: n }, IndexBufferObject { buffer: n })
}

fn triangle_builder() -> MeshPrimitiveBuilder {
    MeshPrimitiveBuilder::new(5)
        .with_vertex_layout(VertexAttributesLayout {
            size: 3,
            items: vec![VertexAttributesLayoutItem { count: 3, active: true }],
        })
        .with_vertices(vec![
            Vertex { attributes: vec![VertexAttribute::Float3(Float3::new(1, 2, 3))] },
            Vertex { attributes: vec![VertexAttribute::Float3(Float3::new(4, 5, 6))] },
            Vertex { attributes: vec![VertexAttribute::Float3(Float3::new(7, 8, 9))] },
        ])
        .with_indices(vec![0, 1, 2])
}

#[test]
fn primitive_builder_flattens_vertices() {
    let b = triangle_builder();
    assert_eq!(b.vertices_data().to_vec(), vec![1, 2, 3, 4, 5, 6, 7, 8, 9]);
    assert_eq!(b.indices().to_vec(), vec![0, 1, 2]);
    assert_eq!(b.vertex_layout().size, 3);
    let p = b.build(4, 1, 2, 3, voa(8));
    assert_eq!(p.internal_id, 4);
    assert_eq!(p.model_internal_id, 1);
    assert_eq!(p.mesh_internal_id, 2);
    assert_eq!(p.material_internal_id, 3);
    assert_eq!(p.indices_count, 3);
    assert_eq!(p.voa, voa(8));
    assert_eq!(p.local_transform, Transform::default());
}

#[test]
fn store_numbers_meshes_and_primitives_in_order() {
    let mesh_a = MeshBuilder::new().add_primitive(triangle_builder()).add_primitive(triangle_builder());
    let mesh_b = MeshBuilder::new().with_primitives(vec![triangle_builder()]);
    let model = ModelBuilder::new(Transform::default(), vec![mesh_a, mesh_b]);
    let mut store = ModelStore::new();
    store.add(&model, &vec![voa(1), voa(2), voa(3)]);
    let prims = store.get_primitives();
    assert_eq!(prims.len(), 3);
    for (i, p) in prims.iter().enumerate() {
        assert_eq!(p.internal_id, i as u32);
        assert_eq!(p.voa, voa(i as u32 + 1));
        assert_eq!(p.material_internal_id, 0);
    }
    assert_eq!(prims[0].mesh_internal_id, 0);
    assert_eq!(prims[1].mesh_internal_id, 0);
    assert_eq!(prims[2].mesh_internal_id, 1);
    assert!(store.get_primitive(2).is_some());
    assert!(store.get_primitive(3).is_none());
}
