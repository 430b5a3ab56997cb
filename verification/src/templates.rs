use crate::geometry::VertexCollection;
use crate::id_map::ExternalId;
use crate::maths::{F32Bits, Float3, Transform};
use vstd::prelude::*;

verus! {

/// Everything a scene is loaded from.
pub struct SceneTemplate {
    pub shaders: Vec<ShaderTemplate>,
    pub textures: Vec<TextureTemplate>,
    pub materials: Vec<MaterialTemplate>,
    pub models: Vec<ModelTemplate>,
    pub main_camera_settings: MainCameraSettings,
    pub scene_graph_template: SceneGraphTemplate,
}

pub struct SceneGraphTemplate {
    pub root_node: SceneGraphNodeTemplate,
}

pub struct SceneGraphNodeTemplate {
    pub id: ExternalId,
    pub transform: Transform,
    pub children: Vec<SceneGraphNodeTemplate>,
    pub template_type: SceneGraphNodeTemplateType,
}

pub enum SceneGraphNodeTemplateType {
    Empty,
    Model(ExternalId),
}

/// Where the main camera starts and how it is turned (`f32` bits).
#[derive(Clone, Copy, PartialEq, Eq, Structural, Debug)]
pub struct MainCameraSettings {
    pub initial_position: Float3,
    pub initial_yaw: F32Bits,
    pub initial_pitch: F32Bits,
}

pub struct ShaderTemplate {
    pub id: ExternalId,
    pub vertex_code: String,
    pub fragment_code: String,
}

pub struct TextureTemplate {
    pub id: ExternalId,
    pub data: Vec<u8>,
    pub width: u32,
    pub height: u32,
}

pub struct MaterialTemplate {
    pub id: ExternalId,
    pub material_type: MaterialTemplateType,
}

pub enum MaterialTemplateType {
    Basic(BasicMaterialTemplate),
    Unlit(UnlitMaterialTemplate),
}

pub struct BasicMaterialTemplate {
    pub shader_id: ExternalId,
    pub is_transparent: bool,
}

pub struct UnlitMaterialTemplate {
    pub shader_id: ExternalId,
    pub texture_id: ExternalId,
    pub is_transparent: bool,
}

pub struct ModelTemplate {
    pub id: ExternalId,
    pub meshes: Vec<MeshTemplate>,
    pub local_transform: Transform,
    pub world_transform: Transform,
}

pub struct MeshTemplate {
    pub id: ExternalId,
    pub primitives: Vec<MeshPrimitiveTemplate>,
    pub local_transform: Transform,
}

pub struct MeshPrimitiveTemplate {
    pub id: ExternalId,
    pub vertices: VertexCollection,
    pub indices: Vec<u32>,
    pub local_transform: Transform,
    pub material_id: ExternalId,
}

impl MainCameraSettings {
    pub fn new(initial_position: Float3, initial_yaw: F32Bits, initial_pitch: F32Bits) -> (r:
        Self)
        ensures
            r == (MainCameraSettings { initial_position, initial_yaw, initial_pitch }),
    {
        MainCameraSettings { initial_position, initial_yaw, initial_pitch }
    }
}

/// The byte order mark some editors put at the start of a text file.
pub const BYTE_ORDER_MARK: char = '\u{FEFF}';

/// `code` without a leading byte order mark.
pub open spec fn without_byte_order_mark(code: Seq<char>) -> Seq<char> {
    if code.len() > 0 && code[0] == BYTE_ORDER_MARK {
        code.drop_first()
    } else {
        code
    }
}

/// Removes a leading byte order mark from shader source code.
pub fn strip_byte_order_mark(code: String) -> (r: String)
    ensures
        r@ == without_byte_order_mark(code@),
{
    let n = code.as_str().unicode_len();
    if n > 0 && code.as_str().get_char(0) == BYTE_ORDER_MARK {
        let rest = code.as_str().substring_char(1, n);
        let stripped = rest.to_owned();
        proof {
            assert(stripped@ =~= code@.drop_first());
        }
        stripped
    } else {
        code
    }
}

impl ShaderTemplate {
    /// The template of a shader from the source code read from its vertex
    /// and fragment files, each without a leading byte order mark.
    pub fn from_sources(id: ExternalId, vert_code: String, frag_code: String) -> (r:
        ShaderTemplate)
        ensures
            r.id == id,
            r.vertex_code@ == without_byte_order_mark(vert_code@),
            r.fragment_code@ == without_byte_order_mark(frag_code@),
    {
        ShaderTemplate {
            id,
            vertex_code: strip_byte_order_mark(vert_code),
            fragment_code: strip_byte_order_mark(frag_code),
        }
    }
}

} // verus!
