use crate::geometry::{RenderableObject, RenderableObjectInternalId};
use crate::gpu_objects::{Shader, ShaderInternalId, Texture, TextureInternalId};
use crate::id_map::{ExternalId, InternalIdMap};
use crate::materials::Material;
use crate::models::{Mesh, MeshInternalId, MeshPrimitive, Model, ModelInternalId};
use vstd::prelude::*;

verus! {

pub type MaterialInternalId = u32;

/// A reference from a scene object to one of the loaded resources.
#[derive(Clone, Copy, PartialEq, Eq, Structural, Debug)]
pub enum ResourceLink {
    Model(ModelInternalId),
    Mesh(MeshInternalId),
    Texture(TextureInternalId),
    Material(MaterialInternalId),
    Shader(ShaderInternalId),
    RenderableObject(RenderableObjectInternalId),
}

/// The ids of the renderable objects among `links`, in order.
pub open spec fn renderable_ids(links: Seq<ResourceLink>) -> Seq<RenderableObjectInternalId>
    decreases links.len(),
{
    if links.len() == 0 {
        seq![]
    } else {
        let before = renderable_ids(links.drop_last());
        match links.last() {
            ResourceLink::RenderableObject(id) => before.push(id),
            _ => before,
        }
    }
}

/// Some link of `links` is to a renderable object.
pub open spec fn links_renderable(links: Seq<ResourceLink>) -> bool {
    exists|i: int| 0 <= i < links.len() && links[i] is RenderableObject
}

pub struct ResourceLinks {
    pub links: Vec<ResourceLink>,
}

impl ResourceLinks {
    pub fn new() -> (r: Self)
        ensures
            r.links@ == Seq::<ResourceLink>::empty(),
    {
        ResourceLinks { links: Vec::new() }
    }

    /// Whether some link is to a renderable object.
    pub fn has_renderable(&self) -> (r: bool)
        ensures
            r == links_renderable(self.links@),
    {
        let mut i: usize = 0;
        while i < self.links.len()
            invariant
                i <= self.links@.len(),
                forall|j: int| 0 <= j < i ==> !(self.links@[j] is RenderableObject),
            decreases self.links@.len() - i,
        {
            match self.links[i] {
                ResourceLink::RenderableObject(_) => return true,
                _ => {},
            }
            i = i + 1;
        }
        false
    }

    /// Appends the ids of the linked renderable objects to `buffer`, in order.
    pub fn add_renderable_ids_to_buffer(&self, buffer: &mut Vec<RenderableObjectInternalId>)
        ensures
            final(buffer)@ == old(buffer)@ + renderable_ids(self.links@),
    {
        let mut i: usize = 0;
        while i < self.links.len()
            invariant
                i <= self.links@.len(),
                buffer@ == old(buffer)@ + renderable_ids(self.links@.take(i as int)),
            decreases self.links@.len() - i,
        {
            proof {
                assert(self.links@.take(i + 1).drop_last() =~= self.links@.take(i as int));
            }
            match self.links[i] {
                ResourceLink::RenderableObject(ro_id) => {
                    buffer.push(ro_id);
                },
                _ => {},
            }
            proof {
                assert(buffer@ =~= old(buffer)@ + renderable_ids(self.links@.take(i + 1)));
            }
            i = i + 1;
        }
        proof {
            assert(self.links@.take(i as int) =~= self.links@);
        }
    }
}

/// The id maps of the loaded resources, from external ids to internal ids.
pub struct ResourcesMap {
    pub materials_map: InternalIdMap,
    pub textures_map: InternalIdMap,
    pub shaders_map: InternalIdMap,
    pub models_map: InternalIdMap,
    pub meshes_map: InternalIdMap,
    pub mesh_primitives_map: InternalIdMap,
    pub renderable_objects_map: InternalIdMap,
}

impl ResourcesMap {
    /// All maps empty.
    pub fn blank() -> (r: Self)
        ensures
            r.materials_map@.is_empty(),
            r.textures_map@.is_empty(),
            r.shaders_map@.is_empty(),
            r.models_map@.is_empty(),
            r.meshes_map@.is_empty(),
            r.mesh_primitives_map@.is_empty(),
            r.renderable_objects_map@.is_empty(),
    {
        ResourcesMap {
            materials_map: InternalIdMap::new(),
            textures_map: InternalIdMap::new(),
            shaders_map: InternalIdMap::new(),
            models_map: InternalIdMap::new(),
            meshes_map: InternalIdMap::new(),
            mesh_primitives_map: InternalIdMap::new(),
            renderable_objects_map: InternalIdMap::new(),
        }
    }

    /// Copies of the given maps.
    pub fn build(
        shaders_map: &InternalIdMap,
        textures_map: &InternalIdMap,
        materials_map: &InternalIdMap,
        models_map: &InternalIdMap,
        meshes_map: &InternalIdMap,
        mesh_primitives_map: &InternalIdMap,
        renderable_objects_map: &InternalIdMap,
    ) -> (r: ResourcesMap)
        ensures
            r.materials_map@ == materials_map@,
            r.textures_map@ == textures_map@,
            r.shaders_map@ == shaders_map@,
            r.models_map@ == models_map@,
            r.meshes_map@ == meshes_map@,
            r.mesh_primitives_map@ == mesh_primitives_map@,
            r.renderable_objects_map@ == renderable_objects_map@,
    {
        ResourcesMap {
            materials_map: materials_map.clone(),
            textures_map: textures_map.clone(),
            shaders_map: shaders_map.clone(),
            models_map: models_map.clone(),
            meshes_map: meshes_map.clone(),
            mesh_primitives_map: mesh_primitives_map.clone(),
            renderable_objects_map: renderable_objects_map.clone(),
        }
    }
}

pub struct NewResourcesCollection {
    pub renderable_objects: Vec<RenderableObject>,
    pub textures: Vec<Texture>,
    pub shaders: Vec<Shader>,
    pub materials: Vec<Material>,
    pub models: Vec<Model>,
    pub meshes: Vec<Mesh>,
    pub primitives: Vec<MeshPrimitive>,
    pub resource_map: ResourcesMap,
}

pub struct PreviousResourcesCollection {
    pub renderable_objects: Vec<RenderableObject>,
    pub textures: Vec<Texture>,
    pub shaders: Vec<Shader>,
    pub materials: Vec<Material>,
    pub models: Vec<Model>,
    pub meshes: Vec<Mesh>,
    pub primitives: Vec<MeshPrimitive>,
}


/// `rm` holds the resources of `c`, maps included.
pub open spec fn holds_resources(rm: ResourceManager, c: NewResourcesCollection) -> bool {
    &&& rm.spec_renderable_objects() == c.renderable_objects@
    &&& rm.spec_textures() == c.textures@
    &&& rm.spec_shaders() == c.shaders@
    &&& rm.spec_materials() == c.materials@
    &&& rm.spec_models() == c.models@
    &&& rm.spec_meshes() == c.meshes@
    &&& rm.spec_primitives() == c.primitives@
    &&& rm.spec_resource_map() == c.resource_map
}

/// `p` holds the resources `rm` held (its maps are not handed back).
pub open spec fn hands_back(p: PreviousResourcesCollection, rm: ResourceManager) -> bool {
    &&& p.renderable_objects@ == rm.spec_renderable_objects()
    &&& p.textures@ == rm.spec_textures()
    &&& p.shaders@ == rm.spec_shaders()
    &&& p.materials@ == rm.spec_materials()
    &&& p.models@ == rm.spec_models()
    &&& p.meshes@ == rm.spec_meshes()
    &&& p.primitives@ == rm.spec_primitives()
}

/// What a swap hands back is what the swap before it installed: the
/// resource manager never frees or alters resources, it only passes them on.
pub proof fn law_swap_hands_back_installed(
    installed: NewResourcesCollection,
    manager: ResourceManager,
    handed_back: PreviousResourcesCollection,
)
    requires
        holds_resources(manager, installed),
        hands_back(handed_back, manager),
    ensures
        handed_back.renderable_objects@ == installed.renderable_objects@,
        handed_back.textures@ == installed.textures@,
        handed_back.shaders@ == installed.shaders@,
        handed_back.materials@ == installed.materials@,
        handed_back.models@ == installed.models@,
        handed_back.meshes@ == installed.meshes@,
        handed_back.primitives@ == installed.primitives@,
{
}

/// The resources of the loaded scene, addressed by internal id (their index).
pub struct ResourceManager {
    renderable_objects: Vec<RenderableObject>,
    textures: Vec<Texture>,
    shaders: Vec<Shader>,
    materials: Vec<Material>,
    models: Vec<Model>,
    meshes: Vec<Mesh>,
    primitives: Vec<MeshPrimitive>,
    pub resource_map: ResourcesMap,
}

impl ResourceManager {
    pub closed spec fn spec_resource_map(&self) -> ResourcesMap {
        self.resource_map
    }

    pub closed spec fn spec_renderable_objects(&self) -> Seq<RenderableObject> {
        self.renderable_objects@
    }

    pub closed spec fn spec_textures(&self) -> Seq<Texture> {
        self.textures@
    }

    pub closed spec fn spec_shaders(&self) -> Seq<Shader> {
        self.shaders@
    }

    pub closed spec fn spec_materials(&self) -> Seq<Material> {
        self.materials@
    }

    pub closed spec fn spec_models(&self) -> Seq<Model> {
        self.models@
    }

    pub closed spec fn spec_meshes(&self) -> Seq<Mesh> {
        self.meshes@
    }

    pub closed spec fn spec_primitives(&self) -> Seq<MeshPrimitive> {
        self.primitives@
    }

    /// No resources, blank maps.
    pub fn new() -> (r: ResourceManager)
        ensures
            r.spec_renderable_objects().len() == 0,
            r.spec_textures().len() == 0,
            r.spec_shaders().len() == 0,
            r.spec_materials().len() == 0,
            r.spec_models().len() == 0,
            r.spec_meshes().len() == 0,
            r.spec_primitives().len() == 0,
            r.spec_resource_map().materials_map@.is_empty(),
            r.spec_resource_map().textures_map@.is_empty(),
            r.spec_resource_map().shaders_map@.is_empty(),
            r.spec_resource_map().models_map@.is_empty(),
            r.spec_resource_map().meshes_map@.is_empty(),
            r.spec_resource_map().mesh_primitives_map@.is_empty(),
            r.spec_resource_map().renderable_objects_map@.is_empty(),
    {
        ResourceManager {
            renderable_objects: Vec::new(),
            textures: Vec::new(),
            shaders: Vec::new(),
            materials: Vec::new(),
            models: Vec::new(),
            meshes: Vec::new(),
            primitives: Vec::new(),
            resource_map: ResourcesMap::blank(),
        }
    }

    /// Installs a new set of resources and hands back the previous ones,
    /// whose GPU objects the caller still has to free. The previous maps are dropped.
    pub fn swap_resources(&mut self, new_resources_collection: NewResourcesCollection) -> (r:
        PreviousResourcesCollection)
        ensures
            holds_resources(*final(self), new_resources_collection),
            hands_back(r, *old(self)),
    {
        let NewResourcesCollection {
            mut renderable_objects,
            mut textures,
            mut shaders,
            mut materials,
            mut models,
            mut meshes,
            mut primitives,
            resource_map,
        } = new_resources_collection;
        self.resource_map = resource_map;
        std::mem::swap(&mut self.renderable_objects, &mut renderable_objects);
        std::mem::swap(&mut self.shaders, &mut shaders);
        std::mem::swap(&mut self.textures, &mut textures);
        std::mem::swap(&mut self.materials, &mut materials);
        std::mem::swap(&mut self.models, &mut models);
        std::mem::swap(&mut self.meshes, &mut meshes);
        std::mem::swap(&mut self.primitives, &mut primitives);
        PreviousResourcesCollection {
            renderable_objects,
            textures,
            shaders,
            materials,
            models,
            meshes,
            primitives,
        }
    }

    /// The material with internal id `*material_id`, if there is one.
    pub fn get_material(&self, material_id: &MaterialInternalId) -> (r: Option<&Material>)
        ensures
            r is Some <==> *material_id < self.spec_materials().len(),
            r matches Some(m) ==> *m == self.spec_materials()[*material_id as int],
    {
        if (*material_id as usize) < self.materials.len() {
            Some(&self.materials[*material_id as usize])
        } else {
            None
        }
    }

    /// The shader with internal id `*shader_id`, if there is one.
    pub fn get_shader(&self, shader_id: &ShaderInternalId) -> (r: Option<&Shader>)
        ensures
            r is Some <==> *shader_id < self.spec_shaders().len(),
            r matches Some(s) ==> *s == self.spec_shaders()[*shader_id as int],
    {
        if (*shader_id as usize) < self.shaders.len() {
            Some(&self.shaders[*shader_id as usize])
        } else {
            None
        }
    }

    /// The renderable object with internal id `*renderable_object_id`, if there is one.
    pub fn get_renderable_object(&self, renderable_object_id: &RenderableObjectInternalId) -> (r:
        Option<&RenderableObject>)
        ensures
            r is Some <==> *renderable_object_id < self.spec_renderable_objects().len(),
            r matches Some(o) ==> *o == self.spec_renderable_objects()[*renderable_object_id as int],
    {
        if (*renderable_object_id as usize) < self.renderable_objects.len() {
            Some(&self.renderable_objects[*renderable_object_id as usize])
        } else {
            None
        }
    }
}


/// A new set of renderer resources that can replace the current one; the
/// renderer does not free resources itself.
pub struct NewRendererResources {
    pub shaders: Vec<Shader>,
    pub textures: Vec<Texture>,
    pub materials: Vec<Material>,
    pub shaders_map: InternalIdMap,
    pub textures_map: InternalIdMap,
    pub materials_map: InternalIdMap,
}

/// Renderer resources handed back when replaced; they are still loaded and
/// the caller frees them.
pub struct PreviousRendererResources {
    pub shaders: Vec<Shader>,
    pub textures: Vec<Texture>,
    pub materials: Vec<Material>,
}

/// Loaded content, addressed by internal index.
#[allow(unused)]
pub struct ContentManager {
    textures: Vec<Texture>,
    shaders: Vec<Shader>,
    materials: Vec<Material>,
}

/// Something that hands out shaders and textures by internal index and
/// finds the internal index of an external id.
pub trait RenderContentProvider {
    fn get_shader(internal_index: i32) -> Shader;

    fn get_texture(internal_index: i32) -> Texture;

    fn get_shader_internal_index(id: &ExternalId) -> Option<i32>;

    fn get_texture_internal_index(id: &ExternalId) -> Option<i32>;
}

} // verus!
