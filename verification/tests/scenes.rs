use psionic::demo::QuadModel;
use psionic::gpu_objects::{IndexBufferObject, Shader, VertexArrayObject, VertexBufferObject};
use psionic::input::InputManager;
use psionic::materials::Material;
use psionic::maths::{Float3, Transform};
use psionic::render_pipeline::{
    f32_bits_lt, renderables_without_material, ElementsDraw, RenderPipeline, RenderPipelineConfiguration,
};
use psionic::runtime::RuntimeContext;
use psionic::scene_loader::{PrimitiveGpuObjects, SceneLoader, SkippedPrimitive};
use psionic::scenes::{SceneGraph, SceneGraphNode, SceneGraphNodeRenderable, SceneInstance, SceneManager};
use psionic::templates::{
    BasicMaterialTemplate, MainCameraSettings, MaterialTemplate, MaterialTemplateType, ModelTemplate,
    SceneGraphNodeTemplate, SceneGraphNodeTemplateType, SceneGraphTemplate, SceneTemplate, ShaderTemplate,
};

const SHADER_ID: u128 = 0x11;
const MATERIAL_ID: u128 = 0x22;

fn voa(n: u32) -> VertexArrayObject {
    VertexArrayObject::create(n, VertexBufferObject { buffer: n + 100 }, IndexBufferObject { buffer: n + 200 })
}

fn template(models: Vec<ModelTemplate>, transparent: bool) -> SceneTemplate {
    SceneTemplate {
        shaders: vec![ShaderTemplate {
            id: SHADER_ID,
            vertex_code: "void main() {}".to_string(),
            fragment_code: "void main() {}".to_string(),
        }],
        textures: vec![],
        materials: vec![MaterialTemplate {
            id: MATERIAL_ID,
            material_type: MaterialTemplateType::Basic(BasicMaterialTemplate {
                shader_id: SHADER_ID,
                is_transparent: transparent,
            }),
        }],
        models,
        main_camera_settings: MainCameraSettings::new(Float3::new(0, 0, 0), (-std::f32::consts::FRAC_PI_2).to_bits(), 0),
        scene_graph_template: SceneGraphTemplate {
            root_node: SceneGraphNodeTemplate {
                id: 0,
                transform: Transform::default(),
                children: vec![],
                template_type: SceneGraphNodeTemplateType::Empty,
            },
        },
    }
}

fn quad(n: u128) -> ModelTemplate {
    QuadModel::model_template_with_ids(&MATERIAL_ID, 100 + n, 200 + n, 300 + n)
}

fn gpu(n: usize) -> Vec<PrimitiveGpuObjects> {
    (0..n as u32)
        .map(|i| PrimitiveGpuObjects { primitive_voa: voa(2 * i + 1), renderable_voa: voa(2 * i + 2) })
        .collect()
}

#[test]
fn loading_a_quad_scene_links_its_resources() {
    let loader = SceneLoader::create(template(vec![quad(1)], false));
    assert!(loader.is_loadable());
    let loaded = loader.load_scene(vec![Shader { program: 7 }], vec![], gpu(1), 0u8);
    assert_eq!(loaded.resources.shaders, vec![Shader { program: 7 }]);
    assert_eq!(loaded.resources.materials.len(), 1);
    match &loaded.resources.materials[0] {
        Material::Basic(b) => {
            assert_eq!(b.shader_internal_id, 0);
            assert!(!b.is_transparent);
        }
        Material::Unlit(_) => panic!("expected a basic material"),
    }
    assert_eq!(loaded.resources.primitives.len(), 1);
    assert_eq!(loaded.resources.primitives[0].indices_count, 6);
    assert_eq!(loaded.resources.primitives[0].voa, voa(1));
    assert_eq!(loaded.resources.resource_map.mesh_primitives_map.get_internal_id(&301), Some(0));
    assert_eq!(loaded.resources.resource_map.materials_map.get_internal_id(&MATERIAL_ID), Some(0));
    assert_eq!(loaded.scene_instance.graph.nodes.len(), 1);
    let node = &loaded.scene_instance.graph.nodes[0];
    assert!(node.active);
    assert_eq!(node.parent_node_id, None);
    assert_eq!(node.renderables, vec![SceneGraphNodeRenderable::create(0, 0)]);
}

#[test]
fn templates_naming_unknown_ids_are_not_loadable() {
    let mut t = template(vec![quad(1)], false);
    t.materials[0].id = 0x99;
    assert!(!SceneLoader::create(t).is_loadable());
    let mut t = template(vec![quad(1)], false);
    t.shaders[0].id = 0x98;
    assert!(!SceneLoader::create(t).is_loadable());
    assert!(SceneLoader::create(template(vec![], false)).is_loadable());
}

#[test]
fn a_frame_draws_the_opaque_batches() {
    let loader = SceneLoader::create(template(vec![quad(1)], false));
    let loaded = loader.load_scene(vec![Shader { program: 7 }], vec![], gpu(1), 0u8);
    let mut ctx = RuntimeContext::create(SceneInstance::blank(0u8), InputManager::new());
    let previous = ctx.swap_scene(loaded);
    assert!(previous.resources.shaders.is_empty());
    assert!(previous.scene_instance.graph.nodes.is_empty());
    let mut pipeline = RenderPipeline::create(RenderPipelineConfiguration { shadows_enabled: true });
    let passes = pipeline.render_scene(&ctx.active_scene, ctx.resource_manager());
    assert_eq!(passes.len(), 1);
    assert_eq!(passes[0].material_internal_id, 0);
    assert_eq!(passes[0].shader, Shader { program: 7 });
    assert_eq!(passes[0].draws, vec![ElementsDraw { voa: voa(2), indices_count: 6 }]);
    ctx.end_frame(&mut pipeline);
    let passes = pipeline.render_scene(&ctx.active_scene, ctx.resource_manager());
    assert_eq!(passes.len(), 1);
}

#[test]
fn transparent_batches_are_not_drawn_by_the_opaque_pass() {
    let loader = SceneLoader::create(template(vec![quad(1)], true));
    let loaded = loader.load_scene(vec![Shader { program: 7 }], vec![], gpu(1), 0u8);
    let mut ctx = RuntimeContext::create(SceneInstance::blank(0u8), InputManager::new());
    ctx.swap_scene(loaded);
    let mut pipeline = RenderPipeline::create(RenderPipelineConfiguration { shadows_enabled: false });
    let passes = pipeline.render_scene(&ctx.active_scene, ctx.resource_manager());
    assert!(passes.is_empty());
}

#[test]
fn batches_go_by_the_renderable_object_id() {
    // Both quads use material 0, but the second one's renderable object has
    // id 1 and materials are looked up by that id: no material 1 exists, so
    // the second quad is left out.
    let loader = SceneLoader::create(template(vec![quad(1), quad(2)], false));
    let loaded = loader.load_scene(vec![Shader { program: 7 }], vec![], gpu(2), 0u8);
    let mut ctx = RuntimeContext::create(SceneInstance::blank(0u8), InputManager::new());
    ctx.swap_scene(loaded);
    let mut pipeline = RenderPipeline::create(RenderPipelineConfiguration { shadows_enabled: false });
    let passes = pipeline.render_scene(&ctx.active_scene, ctx.resource_manager());
    assert_eq!(passes.len(), 1);
    assert_eq!(passes[0].draws, vec![ElementsDraw { voa: voa(2), indices_count: 6 }]);
}

#[test]
fn inactive_nodes_are_not_drawn() {
    let loader = SceneLoader::create(template(vec![quad(1)], false));
    let loaded = loader.load_scene(vec![Shader { program: 7 }], vec![], gpu(1), 0u8);
    let mut ctx = RuntimeContext::create(SceneInstance::blank(0u8), InputManager::new());
    ctx.swap_scene(loaded);
    ctx.active_scene.graph.nodes[0].active = false;
    let mut pipeline = RenderPipeline::create(RenderPipelineConfiguration { shadows_enabled: false });
    let passes = pipeline.render_scene(&ctx.active_scene, ctx.resource_manager());
    assert!(passes.is_empty());
}

fn node(id: u32, active: bool, parent: Option<u32>) -> SceneGraphNode {
    SceneGraphNode {
        id,
        active,
        transform_internal_id: id,
        parent_node_id: parent,
        children: vec![],
        renderables: vec![],
    }
}

#[test]
fn activity_follows_the_parents() {
    let graph = SceneGraph {
        nodes: vec![
            node(1, true, None),
            node(2, true, Some(1)),
            node(3, false, Some(2)),
            node(4, true, Some(3)),
            node(5, true, Some(9)),
            node(6, true, Some(7)),
            node(7, true, Some(6)),
        ],
    };
    assert!(graph.is_active(1));
    assert!(graph.is_active(2));
    assert!(!graph.is_active(3));
    assert!(!graph.is_active(4));
    // A missing parent or a cycle of parents makes a node inactive.
    assert!(!graph.is_active(5));
    assert!(!graph.is_active(6));
    assert!(!graph.is_active(42));
}

#[test]
fn scene_manager_loads_a_blank_scene() {
    let mut manager: SceneManager<u8> = SceneManager::create();
    let t = template(vec![quad(1)], false);
    manager.load_scene(&t, 3u8);
}

#[test]
fn float_order_on_bits() {
    assert!(f32_bits_lt(1.0f32.to_bits(), 2.0f32.to_bits()));
    assert!(!f32_bits_lt(2.0f32.to_bits(), 1.0f32.to_bits()));
    assert!(f32_bits_lt((-3.5f32).to_bits(), (-1.0f32).to_bits()));
    assert!(f32_bits_lt((-1.0f32).to_bits(), 0.0f32.to_bits()));
    assert!(!f32_bits_lt((-0.0f32).to_bits(), 0.0f32.to_bits()));
    assert!(!f32_bits_lt(0.0f32.to_bits(), (-0.0f32).to_bits()));
    assert!(!f32_bits_lt(f32::NAN.to_bits(), 1.0f32.to_bits()));
    assert!(!f32_bits_lt(1.0f32.to_bits(), f32::NAN.to_bits()));
    assert!(f32_bits_lt(f32::MAX.to_bits(), f32::INFINITY.to_bits()));
    assert!(f32_bits_lt(f32::NEG_INFINITY.to_bits(), f32::MIN.to_bits()));
}

#[test]
fn meshes_record_their_model() {
    let loader = SceneLoader::create(template(vec![quad(1), quad(2)], false));
    let loaded = loader.load_scene(vec![Shader { program: 7 }], vec![], gpu(2), 0u8);
    assert_eq!(loaded.resources.meshes.len(), 2);
    assert_eq!(loaded.resources.meshes[0].model_internal_id, 0);
    assert_eq!(loaded.resources.meshes[1].model_internal_id, 1);
    assert_eq!(loaded.resources.meshes[1].internal_id, 1);
    assert_eq!(loaded.resources.meshes[1].primitives, vec![1]);
    assert_eq!(loaded.resources.primitives[1].model_internal_id, 1);
    assert_eq!(loaded.resources.primitives[1].mesh_internal_id, 1);
}

#[test]
fn skipped_primitives_are_reported() {
    let loader = SceneLoader::create(template(vec![quad(1), quad(2)], false));
    let loaded = loader.load_scene(vec![Shader { program: 7 }], vec![], gpu(2), 0u8);
    assert!(loader.skipped_primitives(&loaded.resources.resource_map).is_empty());
    let mut map = psionic::resources::ResourcesMap::blank();
    map.renderable_objects_map.add(&301, 0);
    map.renderable_objects_map.add(&302, 1);
    map.materials_map.add(&0x77, 0);
    assert_eq!(
        loader.skipped_primitives(&map),
        vec![SkippedPrimitive::NoMaterial(MATERIAL_ID), SkippedPrimitive::NoMaterial(MATERIAL_ID)]
    );
    let blank = psionic::resources::ResourcesMap::blank();
    assert_eq!(
        loader.skipped_primitives(&blank),
        vec![SkippedPrimitive::NoRenderableObject(301), SkippedPrimitive::NoRenderableObject(302)]
    );
}

#[test]
fn renderables_without_material_are_reported() {
    let loader = SceneLoader::create(template(vec![quad(1), quad(2)], false));
    let loaded = loader.load_scene(vec![Shader { program: 7 }], vec![], gpu(2), 0u8);
    let mut ctx = RuntimeContext::create(SceneInstance::blank(0u8), InputManager::new());
    ctx.swap_scene(loaded);
    assert_eq!(renderables_without_material(ctx.resource_manager(), &ctx.active_scene), vec![1]);
    ctx.active_scene.graph.nodes[1].active = false;
    assert!(renderables_without_material(ctx.resource_manager(), &ctx.active_scene).is_empty());
}
