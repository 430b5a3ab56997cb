use psionic::geometry::{ElementsRenderableObject, RenderableObject, VertexAttributesLayout};
use psionic::gpu_objects::{IndexBufferObject, Shader, Texture, VertexArrayObject, VertexBufferObject};
use psionic::materials::{BasicMaterial, Material, UnlitMaterial};
use psionic::resources::{NewResourcesCollection, ResourceLink, ResourceLinks, ResourceManager, ResourcesMap};

#[test]
fn links_report_their_renderables() {
    let mut links = ResourceLinks::new();
    assert!(!links.has_renderable());
    links.links.push(ResourceLink::Material(3));
    links.links.push(ResourceLink::Shader(1));
    assert!(!links.has_renderable());
    links.links.push(ResourceLink::RenderableObject(8));
    links.links.push(ResourceLink::Mesh(2));
    links.links.push(ResourceLink::RenderableObject(5));
    assert!(links.has_renderable());
    let mut buffer = vec![1];
    links.add_renderable_ids_to_buffer(&mut buffer);
    assert_eq!(buffer, vec![1, 8, 5]);
}

#[test]
fn material_transparency() {
    assert!(Material::Basic(BasicMaterial { shader_internal_id: 0, is_transparent: true }).is_transparent());
    assert!(!Material::Unlit(UnlitMaterial { shader_internal_id: 0, texture_internal_id: 0, is_transparent: false }).is_transparent());
}

fn voa(n: u32) -> VertexArrayObject {
    VertexArrayObject::create(n, VertexBufferObject { buffer: n }, IndexBufferObject { buffer: n })
}

fn collection(program: u32) -> NewResourcesCollection {
    NewResourcesCollection {
        renderable_objects: vec![RenderableObject::Elements(ElementsRenderableObject {
            layout: VertexAttributesLayout { size: 0, items: vec![] },
            voa: voa(program),
            indices_count: 3,
        })],
        textures: vec![Texture { texture: program }],
        shaders: vec![Shader { program }],
        materials: vec![Material::Basic(BasicMaterial { shader_internal_id: 0, is_transparent: false })],
        models: vec![],
        meshes: vec![],
        primitives: vec![],
        resource_map: ResourcesMap::blank(),
    }
}

#[test]
fn swapping_hands_back_what_was_installed() {
    let mut rm = ResourceManager::new();
    assert!(rm.get_shader(&0).is_none());
    let first = rm.swap_resources(collection(4));
    assert!(first.shaders.is_empty());
    assert_eq!(*rm.get_shader(&0).unwrap(), Shader { program: 4 });
    assert!(rm.get_material(&0).is_some());
    assert!(rm.get_material(&1).is_none());
    assert_eq!(rm.get_renderable_object(&0).unwrap().voa(), voa(4));
    let second = rm.swap_resources(collection(9));
    assert_eq!(second.shaders, vec![Shader { program: 4 }]);
    assert_eq!(second.textures, vec![Texture { texture: 4 }]);
    assert_eq!(*rm.get_shader(&0).unwrap(), Shader { program: 9 });
}
