use psionic::demo::QuadModel;
use psionic::geometry::{VertexAttribute, VertexAttributesLayoutItem};
use psionic::maths::{Float2, Float3};
use psionic::shapes::{quad_indices, quad_normals, quad_uvs};

fn b(x: f32) -> u32 {
    x.to_bits()
}

#[test]
fn quad_shape_data() {
    assert_eq!(quad_indices(), [0, 1, 2, 2, 3, 0]);
    assert_eq!(quad_normals(), [Float3::new(b(0.0), b(1.0), b(0.0)); 4]);
    assert_eq!(
        quad_uvs(),
        [
            Float2::new(b(0.0), b(0.0)),
            Float2::new(b(1.0), b(0.0)),
            Float2::new(b(1.0), b(1.0)),
            Float2::new(b(0.0), b(1.0)),
        ]
    );
}

#[test]
fn quad_model_parts() {
    let layout = QuadModel::vertex_layout();
    assert_eq!(layout.size, 3);
    assert_eq!(layout.items, vec![VertexAttributesLayoutItem { count: 3, active: true }]);
    assert_eq!(QuadModel::indices(), vec![0, 1, 2, 2, 3, 0]);
    let corners: Vec<Vec<VertexAttribute>> = QuadModel::vertices().into_iter().map(|v| v.attributes).collect();
    let expected: Vec<Vec<VertexAttribute>> = [(-1.0f32, -1.0f32), (1.0, -1.0), (1.0, 1.0), (-1.0, 1.0)]
        .iter()
        .map(|(x, y)| vec![VertexAttribute::Float3(Float3::new(b(*x), b(*y), b(5.0)))])
        .collect();
    assert_eq!(corners, expected);
}

#[test]
fn quad_model_template_uses_the_material() {
    let t = QuadModel::model_template_with_ids(&7, 1, 2, 3);
    assert_eq!(t.id, 1);
    assert_eq!(t.meshes.len(), 1);
    assert_eq!(t.meshes[0].id, 2);
    assert_eq!(t.meshes[0].primitives.len(), 1);
    assert_eq!(t.meshes[0].primitives[0].id, 3);
    assert_eq!(t.meshes[0].primitives[0].material_id, 7);
    assert_eq!(t.meshes[0].primitives[0].vertices.indices_as_slice().to_vec(), vec![0, 1, 2, 2, 3, 0]);
    assert_eq!(t.meshes[0].primitives[0].vertices.data_as_slice().len(), 12);
}

#[test]
fn created_quad_models_get_fresh_version_four_ids() {
    let t = QuadModel::create_model_template(&7);
    let u = QuadModel::create_model_template(&7);
    for id in [t.id, t.meshes[0].id, t.meshes[0].primitives[0].id] {
        assert_eq!((id >> 76) & 0xF, 4);
        assert_eq!((id >> 62) & 0x3, 0b10);
    }
    assert_ne!(t.id, t.meshes[0].id);
    assert_ne!(t.id, u.id);
    assert_eq!(t.meshes[0].primitives[0].material_id, 7);
}
