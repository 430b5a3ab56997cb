use crate::geometry::{Vertex, VertexAttribute, VertexAttributesLayout, VertexAttributesLayoutItem, VertexCollection};
use crate::id_map::{is_random_uuid_value, new_external_id, ExternalId};
use crate::input::{InputManager, KeyCode, KeyboardKeyState};
use crate::maths::{F32Bits, Float3, Transform};
use crate::templates::{MeshPrimitiveTemplate, MeshTemplate, ModelTemplate};
use vstd::prelude::*;

verus! {

/// Bits of `-1.0f32`.
pub const F32_MINUS_ONE_BITS: F32Bits = 0xBF80_0000;

/// Bits of `1.0f32`.
pub const F32_PLUS_ONE_BITS: F32Bits = 0x3F80_0000;

/// Bits of `5.0f32`.
pub const F32_FIVE_BITS: F32Bits = 0x40A0_0000;

/// A square of side 2 facing the camera, five units in front of the origin.
pub struct QuadModel {}

/// The corner `(x, y, 5)` of the quad as a vertex.
pub open spec fn quad_corner(x: F32Bits, y: F32Bits) -> Seq<VertexAttribute> {
    seq![VertexAttribute::Float3(Float3 { x, y, z: F32_FIVE_BITS })]
}

/// `t` is the quad model with the given ids, drawn with `material_id`.
pub open spec fn is_quad_model(
    t: ModelTemplate,
    material_id: ExternalId,
    model_id: ExternalId,
    mesh_id: ExternalId,
    primitive_id: ExternalId,
) -> bool {
    &&& t.id == model_id
    &&& t.local_transform == Transform::spec_default()
    &&& t.world_transform == Transform::spec_default()
    &&& t.meshes@.len() == 1
    &&& t.meshes@[0].id == mesh_id
    &&& t.meshes@[0].local_transform == Transform::spec_default()
    &&& t.meshes@[0].primitives@.len() == 1
    &&& t.meshes@[0].primitives@[0].id == primitive_id
    &&& t.meshes@[0].primitives@[0].material_id == material_id
    &&& t.meshes@[0].primitives@[0].indices@.len() == 0
    &&& t.meshes@[0].primitives@[0].local_transform == Transform::spec_default()
    &&& t.meshes@[0].primitives@[0].vertices.spec_layout_size() == 3
    &&& t.meshes@[0].primitives@[0].vertices.spec_layout_items() == seq![
        VertexAttributesLayoutItem { count: 3, active: true },
    ]
    &&& t.meshes@[0].primitives@[0].vertices.spec_indices() == seq![0u32, 1, 2, 2, 3, 0]
    &&& t.meshes@[0].primitives@[0].vertices.spec_vertices().len() == 4
    &&& t.meshes@[0].primitives@[0].vertices.spec_vertices()[0].attributes@ == quad_corner(
        F32_MINUS_ONE_BITS,
        F32_MINUS_ONE_BITS,
    )
    &&& t.meshes@[0].primitives@[0].vertices.spec_vertices()[1].attributes@ == quad_corner(
        F32_PLUS_ONE_BITS,
        F32_MINUS_ONE_BITS,
    )
    &&& t.meshes@[0].primitives@[0].vertices.spec_vertices()[2].attributes@ == quad_corner(
        F32_PLUS_ONE_BITS,
        F32_PLUS_ONE_BITS,
    )
    &&& t.meshes@[0].primitives@[0].vertices.spec_vertices()[3].attributes@ == quad_corner(
        F32_MINUS_ONE_BITS,
        F32_PLUS_ONE_BITS,
    )
}

impl QuadModel {
    /// One attribute of three components per vertex.
    pub fn vertex_layout() -> (r: VertexAttributesLayout)
        ensures
            r.size == 3,
            r.items@ == seq![VertexAttributesLayoutItem { count: 3, active: true }],
    {
        let r = VertexAttributesLayout {
            size: 3,
            items: vec![VertexAttributesLayoutItem { count: 3, active: true }],
        };
        assert(r.items@ =~= seq![VertexAttributesLayoutItem { count: 3, active: true }]);
        r
    }

    fn corner(x: F32Bits, y: F32Bits) -> (r: Vertex)
        ensures
            r.attributes@ == quad_corner(x, y),
    {
        let r = Vertex { attributes: vec![VertexAttribute::Float3(Float3::new(x, y, F32_FIVE_BITS))] };
        assert(r.attributes@ =~= quad_corner(x, y));
        r
    }

    /// The corners (-1, -1), (1, -1), (1, 1), (-1, 1), all at depth 5.
    pub fn vertices() -> (r: Vec<Vertex>)
        ensures
            r@.len() == 4,
            r@[0].attributes@ == quad_corner(F32_MINUS_ONE_BITS, F32_MINUS_ONE_BITS),
            r@[1].attributes@ == quad_corner(F32_PLUS_ONE_BITS, F32_MINUS_ONE_BITS),
            r@[2].attributes@ == quad_corner(F32_PLUS_ONE_BITS, F32_PLUS_ONE_BITS),
            r@[3].attributes@ == quad_corner(F32_MINUS_ONE_BITS, F32_PLUS_ONE_BITS),
    {
        vec![
            QuadModel::corner(F32_MINUS_ONE_BITS, F32_MINUS_ONE_BITS),
            QuadModel::corner(F32_PLUS_ONE_BITS, F32_MINUS_ONE_BITS),
            QuadModel::corner(F32_PLUS_ONE_BITS, F32_PLUS_ONE_BITS),
            QuadModel::corner(F32_MINUS_ONE_BITS, F32_PLUS_ONE_BITS),
        ]
    }

    /// The two triangles over the four corners.
    pub fn indices() -> (r: Vec<u32>)
        ensures
            r@ == seq![0u32, 1, 2, 2, 3, 0],
    {
        let r: Vec<u32> = vec![0, 1, 2, 2, 3, 0];
        assert(r@ =~= seq![0u32, 1, 2, 2, 3, 0]);
        r
    }

    /// The quad model with the given ids: one mesh with one primitive, drawn
    /// with `material_id`, every transform the identity.
    pub fn model_template_with_ids(
        material_id: &ExternalId,
        model_id: ExternalId,
        mesh_id: ExternalId,
        primitive_id: ExternalId,
    ) -> (r: ModelTemplate)
        ensures
            is_quad_model(r, *material_id, model_id, mesh_id, primitive_id),
    {
        let primitive = MeshPrimitiveTemplate {
            id: primitive_id,
            vertices: VertexCollection::new(
                QuadModel::vertex_layout(),
                QuadModel::vertices(),
                QuadModel::indices(),
            ),
            indices: Vec::new(),
            local_transform: Transform::default(),
            material_id: *material_id,
        };
        let mesh = MeshTemplate {
            id: mesh_id,
            primitives: vec![primitive],
            local_transform: Transform::default(),
        };
        ModelTemplate {
            id: model_id,
            meshes: vec![mesh],
            local_transform: Transform::default(),
            world_transform: Transform::default(),
        }
    }

    /// The quad model drawn with `material_id`, under fresh random (version 4
    /// uuid) ids for the model, its mesh and its primitive.
    pub fn create_model_template(material_id: &ExternalId) -> (r: ModelTemplate)
        ensures
            is_quad_model(r, *material_id, r.id, r.meshes@[0].id, r.meshes@[0].primitives@[0].id),
            is_random_uuid_value(r.id),
            is_random_uuid_value(r.meshes@[0].id),
            is_random_uuid_value(r.meshes@[0].primitives@[0].id),
    {
        let model_id = new_external_id();
        let mesh_id = new_external_id();
        let primitive_id = new_external_id();
        QuadModel::model_template_with_ids(material_id, model_id, mesh_id, primitive_id)
    }
}

/// Whether `key` is tracked and held.
pub open spec fn key_held(keys: Map<KeyCode, KeyboardKeyState>, key: KeyCode) -> bool {
    keys.contains_key(key) && keys[key].is_down
}

/// The direction the test camera moves in, as (x, z) each -1, 0 or 1: z is
/// 1 while `forward` is held and -1 while `back` is held (back wins), x is
/// -1 while `left` is held and 1 while `right` is held (right wins).
pub fn movement_direction(
    input_manager: &InputManager,
    forward: KeyCode,
    back: KeyCode,
    left: KeyCode,
    right: KeyCode,
) -> (r: (i32, i32))
    ensures
        r.0 == if key_held(input_manager.keys(), right) {
            1i32
        } else if key_held(input_manager.keys(), left) {
            -1i32
        } else {
            0i32
        },
        r.1 == if key_held(input_manager.keys(), back) {
            -1i32
        } else if key_held(input_manager.keys(), forward) {
            1i32
        } else {
            0i32
        },
{
    let mut x: i32 = 0;
    let mut z: i32 = 0;
    match input_manager.get_keyboard_key_state(forward) {
        None => {},
        Some(state) => {
            if state.is_down {
                z = 1;
            }
        },
    }
    match input_manager.get_keyboard_key_state(back) {
        None => {},
        Some(state) => {
            if state.is_down {
                z = -1;
            }
        },
    }
    match input_manager.get_keyboard_key_state(left) {
        None => {},
        Some(state) => {
            if state.is_down {
                x = -1;
            }
        },
    }
    match input_manager.get_keyboard_key_state(right) {
        None => {},
        Some(state) => {
            if state.is_down {
                x = 1;
            }
        },
    }
    (x, z)
}

} // verus!
