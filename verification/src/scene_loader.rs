use crate::geometry::{ElementsRenderableObject, RenderableObject};
use crate::gpu_objects::{Shader, Texture, VertexArrayObject};
use crate::id_map::{registered_ids, ExternalId, InternalIdMap};
use crate::materials::{BasicMaterial, Material, UnlitMaterial};
use crate::models::{Mesh, MeshInternalId, MeshPrimitive, MeshPrimitiveInternalId, Model};
use crate::resources::{NewResourcesCollection, PreviousResourcesCollection, ResourcesMap};
use crate::maths::Transform;
use crate::scenes::{SceneGraphNode, SceneGraphNodeRenderable, SceneInstance};
use crate::templates::{
    MaterialTemplate, MaterialTemplateType, MeshPrimitiveTemplate, MeshTemplate, ModelTemplate,
    SceneTemplate,
};
use vstd::prelude::*;

verus! {

// Loading a scene walks the models of its template, their meshes and their
// primitives in order and numbers each kind from zero. The specifications
// below describe that walk on flat sequences of "entries".
/// The meshes of all models in order, each with the index of its model.
pub open spec fn mesh_entries(models: Seq<ModelTemplate>) -> Seq<(int, MeshTemplate)>
    decreases models.len(),
{
    if models.len() == 0 {
        seq![]
    } else {
        let mi = models.len() - 1;
        mesh_entries(models.drop_last()) + models.last().meshes@.map_values(
            |m: MeshTemplate| (mi, m),
        )
    }
}

/// The primitives of all meshes in order, each with the index of its model
/// and of its mesh.
pub open spec fn primitive_entries(meshes: Seq<(int, MeshTemplate)>) -> Seq<
    (int, int, MeshPrimitiveTemplate),
>
    decreases meshes.len(),
{
    if meshes.len() == 0 {
        seq![]
    } else {
        let mk = meshes.len() - 1;
        let mi = meshes.last().0;
        primitive_entries(meshes.drop_last()) + meshes.last().1.primitives@.map_values(
            |p: MeshPrimitiveTemplate| (mi, mk, p),
        )
    }
}

/// The ids `first`, `first + 1`, ... (`count` of them).
pub open spec fn consecutive_ids(first: int, count: int) -> Seq<u32> {
    Seq::new(count as nat, |j: int| (first + j) as u32)
}

/// The material a material template loads to, with shader ids looked up in `shaders_map`.
pub open spec fn material_from_template(
    m: Material,
    t: MaterialTemplate,
    shaders_map: Map<ExternalId, u32>,
) -> bool {
    match t.material_type {
        MaterialTemplateType::Basic(bt) => m == Material::Basic(
            BasicMaterial {
                shader_internal_id: shaders_map[bt.shader_id],
                is_transparent: bt.is_transparent,
            },
        ),
        MaterialTemplateType::Unlit(ut) => m == Material::Unlit(
            UnlitMaterial {
                shader_internal_id: 0,
                texture_internal_id: 0,
                is_transparent: ut.is_transparent,
            },
        ),
    }
}

/// `p` is the primitive loaded from template `t` with the given ids, drawn from `voa`.
pub open spec fn primitive_from_template(
    p: MeshPrimitive,
    t: MeshPrimitiveTemplate,
    internal_id: int,
    model_internal_id: int,
    mesh_internal_id: int,
    material_internal_id: int,
    voa: VertexArrayObject,
) -> bool {
    &&& p.internal_id == internal_id
    &&& p.model_internal_id == model_internal_id
    &&& p.mesh_internal_id == mesh_internal_id
    &&& p.material_internal_id == material_internal_id
    &&& p.layout.size == t.vertices.spec_layout_size()
    &&& p.layout.items@ == t.vertices.spec_layout_items()
    &&& p.local_transform == t.local_transform
    &&& p.voa == voa
    &&& p.indices_count == t.vertices.spec_indices().len() as i32
}

/// `o` is the renderable object made for primitive template `t`, drawn from `voa`.
pub open spec fn renderable_from_template(
    o: RenderableObject,
    t: MeshPrimitiveTemplate,
    voa: VertexArrayObject,
) -> bool {
    &&& o is Elements
    &&& o->Elements_0.layout.size == t.vertices.spec_layout_size()
    &&& o->Elements_0.layout.items@ == t.vertices.spec_layout_items()
    &&& o->Elements_0.voa == voa
    &&& o->Elements_0.indices_count == t.vertices.spec_indices().len() as u32
}

/// The GPU objects made for one primitive: the vertex arrays its data was
/// uploaded to for the primitive itself and for its renderable object.
#[derive(Clone, Copy, PartialEq, Eq, Structural, Debug)]
pub struct PrimitiveGpuObjects {
    pub primitive_voa: VertexArrayObject,
    pub renderable_voa: VertexArrayObject,
}

/// The first `primitives.len()` entries are loaded: primitive `p` and
/// renderable object `p` come from entry `p` and its GPU objects, and
/// `ids[p]` is the entry's external id.
pub open spec fn primitives_loaded(
    primitives: Seq<MeshPrimitive>,
    renderable_objects: Seq<RenderableObject>,
    ids: Seq<ExternalId>,
    entries: Seq<(int, int, MeshPrimitiveTemplate)>,
    gpu: Seq<PrimitiveGpuObjects>,
    materials_map: Map<ExternalId, u32>,
) -> bool {
    &&& renderable_objects.len() == primitives.len()
    &&& ids.len() == primitives.len()
    &&& primitives.len() <= entries.len()
    &&& forall|p: int|
        #![trigger primitives[p]]
        0 <= p < primitives.len() ==> {
            &&& primitive_from_template(
                primitives[p],
                entries[p].2,
                p,
                entries[p].0,
                entries[p].1,
                materials_map[entries[p].2.material_id] as int,
                gpu[p].primitive_voa,
            )
            &&& renderable_from_template(renderable_objects[p], entries[p].2, gpu[p].renderable_voa)
            &&& ids[p] == entries[p].2.id
        }
}

/// The first `meshes.len()` mesh entries are loaded. Mesh `k` has id `k`,
/// the ids of its primitives and its local transform; its model id is the
/// index of the model it belongs to.
pub open spec fn meshes_loaded(
    meshes: Seq<Mesh>,
    ids: Seq<ExternalId>,
    entries: Seq<(int, MeshTemplate)>,
) -> bool {
    &&& ids.len() == meshes.len()
    &&& meshes.len() <= entries.len()
    &&& forall|k: int|
        #![trigger meshes[k]]
        0 <= k < meshes.len() ==> {
            &&& meshes[k].internal_id == k
            &&& meshes[k].model_internal_id == entries[k].0
            &&& meshes[k].primitives@ == consecutive_ids(
                primitive_entries(entries.take(k)).len() as int,
                entries[k].1.primitives@.len() as int,
            )
            &&& meshes[k].local_transform == entries[k].1.local_transform
            &&& ids[k] == entries[k].1.id
        }
}

/// The first `loaded.len()` models are loaded: model `i` has id `i`, the
/// ids of its meshes and its local transform.
pub open spec fn models_loaded(
    loaded: Seq<Model>,
    ids: Seq<ExternalId>,
    models: Seq<ModelTemplate>,
) -> bool {
    &&& ids.len() == loaded.len()
    &&& loaded.len() <= models.len()
    &&& forall|i: int|
        #![trigger loaded[i]]
        0 <= i < loaded.len() ==> {
            &&& loaded[i].internal_id == i
            &&& loaded[i].meshes@ == consecutive_ids(
                mesh_entries(models.take(i)).len() as int,
                models[i].meshes@.len() as int,
            )
            &&& loaded[i].local_transform == models[i].local_transform
            &&& ids[i] == models[i].id
        }
}

proof fn lemma_loaded_primitive_ids(
    primitives: Seq<MeshPrimitive>,
    renderable_objects: Seq<RenderableObject>,
    ids: Seq<ExternalId>,
    entries: Seq<(int, int, MeshPrimitiveTemplate)>,
    gpu: Seq<PrimitiveGpuObjects>,
    materials_map: Map<ExternalId, u32>,
)
    requires
        primitives_loaded(primitives, renderable_objects, ids, entries, gpu, materials_map),
        primitives.len() == entries.len(),
    ensures
        ids == entries.map_values(|e: (int, int, MeshPrimitiveTemplate)| e.2.id),
{
    assert forall|p: int| 0 <= p < ids.len() implies ids[p] == entries[p].2.id by {
        assert(primitives[p] == primitives[p]);
        assert(primitive_from_template(
                primitives[p],
                entries[p].2,
                p,
                entries[p].0,
                entries[p].1,
                materials_map[entries[p].2.material_id] as int,
                gpu[p].primitive_voa,
            ));
        assert(renderable_from_template(renderable_objects[p], entries[p].2, gpu[p].renderable_voa));
    }
    assert(ids =~= entries.map_values(|e: (int, int, MeshPrimitiveTemplate)| e.2.id));
}

proof fn lemma_loaded_mesh_ids(meshes: Seq<Mesh>, ids: Seq<ExternalId>, entries: Seq<(int, MeshTemplate)>)
    requires
        meshes_loaded(meshes, ids, entries),
        meshes.len() == entries.len(),
    ensures
        ids == entries.map_values(|e: (int, MeshTemplate)| e.1.id),
{
    assert forall|k: int| 0 <= k < ids.len() implies ids[k] == entries[k].1.id by {
        assert(meshes[k].internal_id == k);
        assert(meshes[k].local_transform == entries[k].1.local_transform);
    }
    assert(ids =~= entries.map_values(|e: (int, MeshTemplate)| e.1.id));
}

proof fn lemma_loaded_model_ids(loaded: Seq<Model>, ids: Seq<ExternalId>, models: Seq<ModelTemplate>)
    requires
        models_loaded(loaded, ids, models),
        loaded.len() == models.len(),
    ensures
        ids == models.map_values(|x: ModelTemplate| x.id),
{
    assert forall|k: int| 0 <= k < ids.len() implies ids[k] == models[k].id by {
        assert(loaded[k].internal_id == k);
        assert(loaded[k].local_transform == models[k].local_transform);
    }
    assert(ids =~= models.map_values(|x: ModelTemplate| x.id));
}

proof fn lemma_mesh_entries_step(models: Seq<ModelTemplate>, i: int)
    requires
        0 <= i < models.len(),
    ensures
        mesh_entries(models.take(i + 1)) == mesh_entries(models.take(i))
            + models[i].meshes@.map_values(|m: MeshTemplate| (i, m)),
{
    assert(models.take(i + 1).drop_last() =~= models.take(i));
    assert(models.take(i + 1).last() == models[i]);
}

proof fn lemma_mesh_entries_prefix(models: Seq<ModelTemplate>, i: int, j: int)
    requires
        0 <= i <= j <= models.len(),
    ensures
        mesh_entries(models.take(i)).len() <= mesh_entries(models.take(j)).len(),
        forall|k: int|
            0 <= k < mesh_entries(models.take(i)).len() ==> mesh_entries(models.take(j))[k]
                == mesh_entries(models.take(i))[k],
    decreases j - i,
{
    if i < j {
        lemma_mesh_entries_step(models, j - 1);
        lemma_mesh_entries_prefix(models, i, j - 1);
    }
}

proof fn lemma_primitive_entries_step(meshes: Seq<(int, MeshTemplate)>, k: int)
    requires
        0 <= k < meshes.len(),
    ensures
        primitive_entries(meshes.take(k + 1)) == primitive_entries(meshes.take(k))
            + meshes[k].1.primitives@.map_values(
            |p: MeshPrimitiveTemplate| (meshes[k].0, k, p),
        ),
{
    assert(meshes.take(k + 1).drop_last() =~= meshes.take(k));
    assert(meshes.take(k + 1).last() == meshes[k]);
}

proof fn lemma_primitive_entries_prefix(meshes: Seq<(int, MeshTemplate)>, i: int, j: int)
    requires
        0 <= i <= j <= meshes.len(),
    ensures
        primitive_entries(meshes.take(i)).len() <= primitive_entries(meshes.take(j)).len(),
        forall|k: int|
            0 <= k < primitive_entries(meshes.take(i)).len() ==> primitive_entries(
                meshes.take(j),
            )[k] == primitive_entries(meshes.take(i))[k],
    decreases j - i,
{
    if i < j {
        lemma_primitive_entries_step(meshes, j - 1);
        lemma_primitive_entries_prefix(meshes, i, j - 1);
    }
}

/// Models, meshes, primitives and renderable objects loaded so far, with
/// the external ids of each in load order.
struct ModelsLoad {
    models: Vec<Model>,
    meshes: Vec<Mesh>,
    primitives: Vec<MeshPrimitive>,
    renderable_objects: Vec<RenderableObject>,
    model_ids: Vec<ExternalId>,
    mesh_ids: Vec<ExternalId>,
    primitive_ids: Vec<ExternalId>,
}

/// Loads the primitives of the next mesh entry (`entries[k]` for `k` the
/// number of meshes loaded so far) and returns their ids.
fn load_mesh_primitives(
    state: &mut ModelsLoad,
    mesh: &MeshTemplate,
    model_index: usize,
    materials_map: &InternalIdMap,
    gpu: &Vec<PrimitiveGpuObjects>,
    Ghost(entries): Ghost<Seq<(int, MeshTemplate)>>,
) -> (ids: Vec<MeshPrimitiveInternalId>)
    requires
        old(state).meshes@.len() < entries.len() <= u32::MAX,
        entries[old(state).meshes@.len() as int] == (model_index as int, *mesh),
        model_index <= u32::MAX,
        old(state).primitives@.len() == primitive_entries(
            entries.take(old(state).meshes@.len() as int),
        ).len(),
        primitives_loaded(
            old(state).primitives@,
            old(state).renderable_objects@,
            old(state).primitive_ids@,
            primitive_entries(entries),
            gpu@,
            materials_map@,
        ),
        gpu@.len() == primitive_entries(entries).len() <= u32::MAX,
        forall|p: int|
            0 <= p < primitive_entries(entries).len() ==> materials_map@.contains_key(
                #[trigger] primitive_entries(entries)[p].2.material_id,
            ),
    ensures
        final(state).primitives@.len() == primitive_entries(
            entries.take(old(state).meshes@.len() + 1int),
        ).len(),
        primitives_loaded(
            final(state).primitives@,
            final(state).renderable_objects@,
            final(state).primitive_ids@,
            primitive_entries(entries),
            gpu@,
            materials_map@,
        ),
        ids@ == consecutive_ids(
            old(state).primitives@.len() as int,
            mesh.primitives@.len() as int,
        ),
        final(state).models@ == old(state).models@,
        final(state).meshes@ == old(state).meshes@,
        final(state).model_ids@ == old(state).model_ids@,
        final(state).mesh_ids@ == old(state).mesh_ids@,
{
    let mesh_index = state.meshes.len();
    let ghost base: int = state.primitives@.len() as int;
    let ghost all = primitive_entries(entries);
    proof {
        lemma_primitive_entries_step(entries, mesh_index as int);
        lemma_primitive_entries_prefix(entries, mesh_index + 1, entries.len() as int);
        assert(entries.take(entries.len() as int) =~= entries);
    }
    let mut ids: Vec<MeshPrimitiveInternalId> = Vec::new();
    let mut j: usize = 0;
    while j < mesh.primitives.len()
        invariant
            all == primitive_entries(entries),
            mesh_index == old(state).meshes@.len(),
            entries[mesh_index as int] == (model_index as int, *mesh),
            model_index <= u32::MAX,
            mesh_index < entries.len() <= u32::MAX,
            base == primitive_entries(entries.take(mesh_index as int)).len(),
            primitive_entries(entries.take(mesh_index + 1)) == primitive_entries(
                entries.take(mesh_index as int),
            ) + mesh.primitives@.map_values(
                |p: MeshPrimitiveTemplate| (model_index as int, mesh_index as int, p),
            ),
            primitive_entries(entries.take(mesh_index + 1)).len() <= all.len(),
            forall|k: int|
                0 <= k < primitive_entries(entries.take(mesh_index + 1)).len() ==> all[k]
                    == primitive_entries(entries.take(mesh_index + 1))[k],
            gpu@.len() == all.len() <= u32::MAX,
            forall|p: int|
                0 <= p < all.len() ==> materials_map@.contains_key(#[trigger] all[p].2.material_id),
            j <= mesh.primitives@.len(),
            state.primitives@.len() == base + j,
            primitives_loaded(
                state.primitives@,
                state.renderable_objects@,
                state.primitive_ids@,
                all,
                gpu@,
                materials_map@,
            ),
            ids@ == consecutive_ids(base, j as int),
            state.models@ == old(state).models@,
            state.meshes@ == old(state).meshes@,
            state.model_ids@ == old(state).model_ids@,
            state.mesh_ids@ == old(state).mesh_ids@,
        decreases mesh.primitives@.len() - j,
    {
        let prim = &mesh.primitives[j];
        let next_primitive_id = state.primitives.len();
        proof {
            assert(all[base + j] == (model_index as int, mesh_index as int, *prim));
            assert(materials_map@.contains_key(all[base + j].2.material_id));
        }
        let material_internal_id = materials_map.get_internal_id(&prim.material_id).unwrap();
        let objects = gpu[next_primitive_id];
        let new_primitive = MeshPrimitive::build(
            &prim.vertices,
            &(next_primitive_id as u32),
            &(model_index as u32),
            &(mesh_index as u32),
            &material_internal_id,
            &prim.local_transform,
            objects.primitive_voa,
        );
        let em = ElementsRenderableObject::from_mesh_primitive(prim, objects.renderable_voa);
        let ghost before = state.primitives@;
        let ghost before_ros = state.renderable_objects@;
        let ghost before_ids = state.primitive_ids@;
        state.primitives.push(new_primitive);
        state.primitive_ids.push(prim.id);
        state.renderable_objects.push(RenderableObject::Elements(em));
        ids.push(next_primitive_id as u32);
        proof {
            assert forall|p: int| #![trigger state.primitives@[p]] 0 <= p < state.primitives@.len() implies {
                &&& primitive_from_template(
                    state.primitives@[p],
                    all[p].2,
                    p,
                    all[p].0,
                    all[p].1,
                    materials_map@[all[p].2.material_id] as int,
                    gpu@[p].primitive_voa,
                )
                &&& renderable_from_template(state.renderable_objects@[p], all[p].2, gpu@[p].renderable_voa)
                &&& state.primitive_ids@[p] == all[p].2.id
            } by {
                if p < before.len() {
                    assert(state.primitives@[p] == before[p]);
                    assert(state.renderable_objects@[p] == before_ros[p]);
                    assert(state.primitive_ids@[p] == before_ids[p]);
                }
            }
            assert(ids@ =~= consecutive_ids(base, j + 1));
        }
        j = j + 1;
    }
    ids
}

/// Loads the meshes (and their primitives) of the next model (`models[i]`
/// for `i` the number of models loaded so far) and returns their ids.
fn load_model_meshes(
    state: &mut ModelsLoad,
    model: &ModelTemplate,
    materials_map: &InternalIdMap,
    gpu: &Vec<PrimitiveGpuObjects>,
    Ghost(models): Ghost<Seq<ModelTemplate>>,
) -> (ids: Vec<MeshInternalId>)
    requires
        old(state).models@.len() < models.len() <= u32::MAX,
        models[old(state).models@.len() as int] == *model,
        mesh_entries(models).len() <= u32::MAX,
        old(state).meshes@.len() == mesh_entries(
            models.take(old(state).models@.len() as int),
        ).len(),
        meshes_loaded(old(state).meshes@, old(state).mesh_ids@, mesh_entries(models)),
        old(state).primitives@.len() == primitive_entries(
            mesh_entries(models).take(old(state).meshes@.len() as int),
        ).len(),
        primitives_loaded(
            old(state).primitives@,
            old(state).renderable_objects@,
            old(state).primitive_ids@,
            primitive_entries(mesh_entries(models)),
            gpu@,
            materials_map@,
        ),
        gpu@.len() == primitive_entries(mesh_entries(models)).len() <= u32::MAX,
        forall|p: int|
            0 <= p < primitive_entries(mesh_entries(models)).len()
                ==> materials_map@.contains_key(
                #[trigger] primitive_entries(mesh_entries(models))[p].2.material_id,
            ),
    ensures
        final(state).meshes@.len() == mesh_entries(
            models.take(old(state).models@.len() + 1int),
        ).len(),
        meshes_loaded(final(state).meshes@, final(state).mesh_ids@, mesh_entries(models)),
        final(state).primitives@.len() == primitive_entries(
            mesh_entries(models).take(final(state).meshes@.len() as int),
        ).len(),
        primitives_loaded(
            final(state).primitives@,
            final(state).renderable_objects@,
            final(state).primitive_ids@,
            primitive_entries(mesh_entries(models)),
            gpu@,
            materials_map@,
        ),
        ids@ == consecutive_ids(old(state).meshes@.len() as int, model.meshes@.len() as int),
        final(state).models@ == old(state).models@,
        final(state).model_ids@ == old(state).model_ids@,
{
    let model_index = state.models.len();
    let ghost entries = mesh_entries(models);
    let ghost base: int = state.meshes@.len() as int;
    proof {
        lemma_mesh_entries_step(models, model_index as int);
        lemma_mesh_entries_prefix(models, model_index + 1, models.len() as int);
        assert(models.take(models.len() as int) =~= models);
    }
    let mut ids: Vec<MeshInternalId> = Vec::new();
    let mut j: usize = 0;
    while j < model.meshes.len()
        invariant
            entries == mesh_entries(models),
            model_index == old(state).models@.len(),
            models[model_index as int] == *model,
            model_index < models.len() <= u32::MAX,
            entries.len() <= u32::MAX,
            base == mesh_entries(models.take(model_index as int)).len(),
            mesh_entries(models.take(model_index + 1)) == mesh_entries(
                models.take(model_index as int),
            ) + model.meshes@.map_values(|m: MeshTemplate| (model_index as int, m)),
            mesh_entries(models.take(model_index + 1)).len() <= entries.len(),
            forall|k: int|
                0 <= k < mesh_entries(models.take(model_index + 1)).len() ==> entries[k]
                    == mesh_entries(models.take(model_index + 1))[k],
            j <= model.meshes@.len(),
            state.meshes@.len() == base + j,
            meshes_loaded(state.meshes@, state.mesh_ids@, entries),
            state.primitives@.len() == primitive_entries(
                entries.take(state.meshes@.len() as int),
            ).len(),
            primitives_loaded(
                state.primitives@,
                state.renderable_objects@,
                state.primitive_ids@,
                primitive_entries(entries),
                gpu@,
                materials_map@,
            ),
            gpu@.len() == primitive_entries(entries).len() <= u32::MAX,
            forall|p: int|
                0 <= p < primitive_entries(entries).len() ==> materials_map@.contains_key(
                    #[trigger] primitive_entries(entries)[p].2.material_id,
                ),
            ids@ == consecutive_ids(base, j as int),
            state.models@ == old(state).models@,
            state.model_ids@ == old(state).model_ids@,
        decreases model.meshes@.len() - j,
    {
        let mesh = &model.meshes[j];
        let next_mesh_id = state.meshes.len();
        proof {
            assert(entries[base + j] == (model_index as int, *mesh));
        }
        let primitive_ids = load_mesh_primitives(
            state,
            mesh,
            model_index,
            materials_map,
            gpu,
            Ghost(entries),
        );
        proof {
            lemma_primitive_entries_prefix(entries, next_mesh_id + 1, entries.len() as int);
            assert(entries.take(entries.len() as int) =~= entries);
        }
        let new_mesh = Mesh::create(
            &(next_mesh_id as u32),
            &(model_index as u32),
            primitive_ids,
            &mesh.local_transform,
        );
        let ghost before = state.meshes@;
        let ghost before_ids = state.mesh_ids@;
        state.meshes.push(new_mesh);
        state.mesh_ids.push(mesh.id);
        ids.push(next_mesh_id as u32);
        proof {
            assert forall|k: int| #![trigger state.meshes@[k]] 0 <= k < state.meshes@.len() implies {
                &&& state.meshes@[k].internal_id == k
                &&& state.meshes@[k].model_internal_id == entries[k].0
                &&& state.meshes@[k].primitives@ == consecutive_ids(
                    primitive_entries(entries.take(k)).len() as int,
                    entries[k].1.primitives@.len() as int,
                )
                &&& state.meshes@[k].local_transform == entries[k].1.local_transform
                &&& state.mesh_ids@[k] == entries[k].1.id
            } by {
                if k < before.len() {
                    assert(state.meshes@[k] == before[k]);
                    assert(state.mesh_ids@[k] == before_ids[k]);
                }
            }
            assert(ids@ =~= consecutive_ids(base, j + 1));
        }
        j = j + 1;
    }
    ids
}

pub open spec fn shader_ids(template: SceneTemplate) -> Seq<ExternalId> {
    template.shaders@.map_values(|x: crate::templates::ShaderTemplate| x.id)
}

pub open spec fn texture_ids(template: SceneTemplate) -> Seq<ExternalId> {
    template.textures@.map_values(|x: crate::templates::TextureTemplate| x.id)
}

pub open spec fn material_ids(template: SceneTemplate) -> Seq<ExternalId> {
    template.materials@.map_values(|x: MaterialTemplate| x.id)
}

pub open spec fn model_ids(template: SceneTemplate) -> Seq<ExternalId> {
    template.models@.map_values(|x: ModelTemplate| x.id)
}

/// The mesh entries of a template's models.
pub open spec fn template_meshes(template: SceneTemplate) -> Seq<(int, MeshTemplate)> {
    mesh_entries(template.models@)
}

/// The primitive entries of a template's models.
pub open spec fn template_primitives(template: SceneTemplate) -> Seq<
    (int, int, MeshPrimitiveTemplate),
> {
    primitive_entries(mesh_entries(template.models@))
}

pub open spec fn mesh_ids(template: SceneTemplate) -> Seq<ExternalId> {
    template_meshes(template).map_values(|e: (int, MeshTemplate)| e.1.id)
}

pub open spec fn primitive_ids(template: SceneTemplate) -> Seq<ExternalId> {
    template_primitives(template).map_values(|e: (int, int, MeshPrimitiveTemplate)| e.2.id)
}

/// The id of each primitive of a template with the id of the material it
/// names, in load order.
pub open spec fn primitive_id_pairs(template: SceneTemplate) -> Seq<(ExternalId, ExternalId)> {
    template_primitives(template).map_values(|e: (int, int, MeshPrimitiveTemplate)| (e.2.id, e.2.material_id))
}

proof fn lemma_primitive_entries_push(meshes: Seq<(int, MeshTemplate)>, e: (int, MeshTemplate))
    ensures
        primitive_entries(meshes.push(e)).map_values(
            |x: (int, int, MeshPrimitiveTemplate)| (x.2.id, x.2.material_id),
        ) == primitive_entries(meshes).map_values(
            |x: (int, int, MeshPrimitiveTemplate)| (x.2.id, x.2.material_id),
        ) + e.1.primitives@.map_values(|p: MeshPrimitiveTemplate| (p.id, p.material_id)),
{
    assert(meshes.push(e).drop_last() =~= meshes);
    let a = primitive_entries(meshes);
    let b = e.1.primitives@.map_values(|p: MeshPrimitiveTemplate| (e.0, meshes.len() as int, p));
    assert(primitive_entries(meshes.push(e)) == a + b);
    assert((a + b).map_values(|x: (int, int, MeshPrimitiveTemplate)| (x.2.id, x.2.material_id)) =~= a.map_values(
        |x: (int, int, MeshPrimitiveTemplate)| (x.2.id, x.2.material_id),
    ) + e.1.primitives@.map_values(|p: MeshPrimitiveTemplate| (p.id, p.material_id)));
}

/// The ids of the primitives of `template`, each with its material id, in load order.
fn collect_primitive_id_pairs(template: &SceneTemplate) -> (r: Vec<(ExternalId, ExternalId)>)
    ensures
        r@ == primitive_id_pairs(*template),
{
    let ghost models = template.models@;
    let mut r: Vec<(ExternalId, ExternalId)> = Vec::new();
    let mut i: usize = 0;
    proof {
        assert(models.take(0) =~= Seq::<ModelTemplate>::empty());
        assert(mesh_entries(models.take(0)) =~= Seq::<(int, MeshTemplate)>::empty());
        assert(primitive_entries(Seq::<(int, MeshTemplate)>::empty()).map_values(
            |x: (int, int, MeshPrimitiveTemplate)| (x.2.id, x.2.material_id),
        ) =~= Seq::<(ExternalId, ExternalId)>::empty());
    }
    while i < template.models.len()
        invariant
            models == template.models@,
            i <= models.len(),
            r@ == primitive_entries(mesh_entries(models.take(i as int))).map_values(
                |x: (int, int, MeshPrimitiveTemplate)| (x.2.id, x.2.material_id),
            ),
        decreases models.len() - i,
    {
        let model = &template.models[i];
        let ghost before = mesh_entries(models.take(i as int));
        let ghost mapped = model.meshes@.map_values(|m: MeshTemplate| (i as int, m));
        proof {
            lemma_mesh_entries_step(models, i as int);
            assert(mapped.take(0) =~= Seq::<(int, MeshTemplate)>::empty());
            assert(before + mapped.take(0) =~= before);
        }
        let mut j: usize = 0;
        while j < model.meshes.len()
            invariant
                models == template.models@,
                i < models.len(),
                *model == models[i as int],
                mapped == model.meshes@.map_values(|m: MeshTemplate| (i as int, m)),
                j <= model.meshes@.len(),
                r@ == primitive_entries(before + mapped.take(j as int)).map_values(
                    |x: (int, int, MeshPrimitiveTemplate)| (x.2.id, x.2.material_id),
                ),
            decreases model.meshes@.len() - j,
        {
            let mesh = &model.meshes[j];
            proof {
                assert(before + mapped.take(j + 1) =~= (before + mapped.take(j as int)).push(mapped[j as int]));
                lemma_primitive_entries_push(before + mapped.take(j as int), mapped[j as int]);
                assert(mapped[j as int].1 == *mesh);
            }
            let ghost r_before = r@;
            let mut q: usize = 0;
            while q < mesh.primitives.len()
                invariant
                    j < model.meshes@.len(),
                    *mesh == model.meshes@[j as int],
                    q <= mesh.primitives@.len(),
                    r@ == r_before + mesh.primitives@.take(q as int).map_values(
                        |p: MeshPrimitiveTemplate| (p.id, p.material_id),
                    ),
                decreases mesh.primitives@.len() - q,
            {
                r.push((mesh.primitives[q].id, mesh.primitives[q].material_id));
                proof {
                    assert(mesh.primitives@.take(q + 1).map_values(|p: MeshPrimitiveTemplate| (p.id, p.material_id))
                        =~= mesh.primitives@.take(q as int).map_values(
                        |p: MeshPrimitiveTemplate| (p.id, p.material_id),
                    ).push((mesh.primitives@[q as int].id, mesh.primitives@[q as int].material_id)));
                    assert(r@ =~= r_before + mesh.primitives@.take(q + 1).map_values(
                        |p: MeshPrimitiveTemplate| (p.id, p.material_id),
                    ));
                }
                q = q + 1;
            }
            proof {
                assert(mesh.primitives@.take(q as int) =~= mesh.primitives@);
            }
            j = j + 1;
        }
        proof {
            assert(mapped.take(j as int) =~= mapped);
        }
        i = i + 1;
    }
    proof {
        assert(models.take(i as int) =~= models);
    }
    r
}

/// A primitive that a built scene leaves out of its node: the id of the
/// primitive when it has no renderable object, else the id of the material
/// it names when that material has no internal id.
#[derive(Clone, Copy, PartialEq, Eq, Structural, Debug)]
pub enum SkippedPrimitive {
    NoRenderableObject(ExternalId),
    NoMaterial(ExternalId),
}

/// The primitives (given as their id and material id) that the maps leave
/// out, in order.
pub open spec fn skipped_of(
    pairs: Seq<(ExternalId, ExternalId)>,
    renderable_objects_map: Map<ExternalId, u32>,
    materials_map: Map<ExternalId, u32>,
) -> Seq<SkippedPrimitive>
    decreases pairs.len(),
{
    if pairs.len() == 0 {
        seq![]
    } else {
        let before = skipped_of(pairs.drop_last(), renderable_objects_map, materials_map);
        let (id, material_id) = pairs.last();
        if !renderable_objects_map.contains_key(id) {
            before.push(SkippedPrimitive::NoRenderableObject(id))
        } else if !materials_map.contains_key(material_id) {
            before.push(SkippedPrimitive::NoMaterial(material_id))
        } else {
            before
        }
    }
}

/// The number of meshes of `template`, or `u32::MAX + 1` if it is larger.
fn mesh_count_capped(template: &SceneTemplate) -> (r: u64)
    ensures
        r == if template_meshes(*template).len() <= u32::MAX {
            template_meshes(*template).len() as int
        } else {
            u32::MAX + 1
        },
{
    let ghost models = template.models@;
    let mut count: u64 = 0;
    let mut i: usize = 0;
    proof {
        assert(models.take(0) =~= Seq::<ModelTemplate>::empty());
    }
    while i < template.models.len()
        invariant
            models == template.models@,
            i <= models.len(),
            count == if mesh_entries(models.take(i as int)).len() <= u32::MAX {
                mesh_entries(models.take(i as int)).len() as int
            } else {
                u32::MAX + 1
            },
        decreases models.len() - i,
    {
        proof {
            lemma_mesh_entries_step(models, i as int);
        }
        let n = template.models[i].meshes.len();
        if n as u64 > 0x1_0000_0000u64 - count {
            count = 0x1_0000_0000u64;
        } else {
            count = count + n as u64;
            if count > 0xffff_ffffu64 {
                count = 0x1_0000_0000u64;
            }
        }
        i = i + 1;
    }
    proof {
        assert(models.take(i as int) =~= models);
    }
    count
}

/// The external ids of the shader templates, in order.
fn collect_shader_ids(template: &SceneTemplate) -> (r: Vec<ExternalId>)
    ensures
        r@ == shader_ids(*template),
{
    let mut r: Vec<ExternalId> = Vec::new();
    let mut i: usize = 0;
    while i < template.shaders.len()
        invariant
            i <= template.shaders@.len(),
            r@ == shader_ids(*template).take(i as int),
        decreases template.shaders@.len() - i,
    {
        r.push(template.shaders[i].id);
        proof {
            assert(shader_ids(*template).take(i + 1) =~= shader_ids(*template).take(i as int).push(
                template.shaders@[i as int].id,
            ));
        }
        i = i + 1;
    }
    proof {
        assert(shader_ids(*template).take(i as int) =~= shader_ids(*template));
    }
    r
}

/// The external ids of the material templates, in order.
fn collect_material_ids(template: &SceneTemplate) -> (r: Vec<ExternalId>)
    ensures
        r@ == material_ids(*template),
{
    let mut r: Vec<ExternalId> = Vec::new();
    let mut i: usize = 0;
    while i < template.materials.len()
        invariant
            i <= template.materials@.len(),
            r@ == material_ids(*template).take(i as int),
        decreases template.materials@.len() - i,
    {
        r.push(template.materials[i].id);
        proof {
            assert(material_ids(*template).take(i + 1) =~= material_ids(*template).take(i as int).push(
                template.materials@[i as int].id,
            ));
        }
        i = i + 1;
    }
    proof {
        assert(material_ids(*template).take(i as int) =~= material_ids(*template));
    }
    r
}

/// Whether `id` occurs in `ids`.
fn contains_id(ids: &Vec<ExternalId>, id: ExternalId) -> (r: bool)
    ensures
        r == ids@.contains(id),
{
    let mut i: usize = 0;
    while i < ids.len()
        invariant
            i <= ids@.len(),
            forall|k: int| 0 <= k < i ==> ids@[k] != id,
        decreases ids@.len() - i,
    {
        if ids[i] == id {
            proof {
                assert(ids@[i as int] == id);
            }
            return true;
        }
        i = i + 1;
    }
    false
}

/// What loading a scene's resources needs of its template: every count fits
/// an internal id, every basic material names a shader of the template and
/// every primitive names a material of the template.
pub open spec fn template_loadable(template: SceneTemplate) -> bool {
    &&& template.shaders@.len() <= u32::MAX
    &&& template.textures@.len() <= u32::MAX
    &&& template.materials@.len() <= u32::MAX
    &&& template.models@.len() <= u32::MAX
    &&& template_meshes(template).len() <= u32::MAX
    &&& template_primitives(template).len() <= u32::MAX
    &&& forall|k: int|
        0 <= k < template.materials@.len() ==> ((#[trigger] template.materials@[k]).material_type
            matches MaterialTemplateType::Basic(bt) ==> shader_ids(template).contains(bt.shader_id))
    &&& forall|p: int|
        0 <= p < template_primitives(template).len() ==> material_ids(template).contains(
            (#[trigger] template_primitives(template)[p]).2.material_id,
        )
}

/// `r` is what loading the resources of `template` gives with the given
/// GPU objects: see `SceneLoader::load_resources`.
pub open spec fn resources_loaded_from(
    r: NewResourcesCollection,
    template: SceneTemplate,
    shaders: Seq<Shader>,
    textures: Seq<Texture>,
    gpu: Seq<PrimitiveGpuObjects>,
) -> bool {
    &&& r.shaders@ == shaders
    &&& r.textures@ == textures
    &&& r.resource_map.shaders_map@ == registered_ids(shader_ids(template))
    &&& r.resource_map.textures_map@ == registered_ids(texture_ids(template))
    &&& r.resource_map.materials_map@ == registered_ids(material_ids(template))
    &&& r.materials@.len() == template.materials@.len()
    &&& forall|k: int|
        0 <= k < r.materials@.len() ==> material_from_template(
            #[trigger] r.materials@[k],
            template.materials@[k],
            registered_ids(shader_ids(template)),
        )
    &&& r.primitives@.len() == template_primitives(template).len()
    &&& primitives_loaded(
            r.primitives@,
            r.renderable_objects@,
            primitive_ids(template),
            template_primitives(template),
            gpu,
            registered_ids(material_ids(template)),
        )
    &&& r.meshes@.len() == template_meshes(template).len()
    &&& meshes_loaded(r.meshes@, mesh_ids(template), template_meshes(template))
    &&& r.models@.len() == template.models@.len()
    &&& models_loaded(r.models@, model_ids(template), template.models@)
    &&& r.resource_map.models_map@ == registered_ids(model_ids(template))
    &&& r.resource_map.meshes_map@ == registered_ids(mesh_ids(template))
    &&& r.resource_map.mesh_primitives_map@ == registered_ids(primitive_ids(template))
    &&& r.resource_map.renderable_objects_map@ == registered_ids(
            primitive_ids(template),
        )
}

/// The renderables of some primitives: one per primitive whose external id
/// has a renderable object and whose material has an internal id, in order.
pub open spec fn primitives_renderables(
    primitives: Seq<MeshPrimitiveTemplate>,
    renderable_objects_map: Map<ExternalId, u32>,
    materials_map: Map<ExternalId, u32>,
) -> Seq<SceneGraphNodeRenderable>
    decreases primitives.len(),
{
    if primitives.len() == 0 {
        seq![]
    } else {
        let before = primitives_renderables(
            primitives.drop_last(),
            renderable_objects_map,
            materials_map,
        );
        let p = primitives.last();
        if renderable_objects_map.contains_key(p.id) && materials_map.contains_key(p.material_id) {
            before.push(
                SceneGraphNodeRenderable {
                    renderable_object_internal_id: renderable_objects_map[p.id],
                    material_internal_id: materials_map[p.material_id],
                },
            )
        } else {
            before
        }
    }
}

/// Each renderable of a node comes from one of its primitives whose
/// renderable object and material are both registered: it draws that
/// primitive's own renderable object with the internal id of the material
/// the primitive names. When every primitive is registered, the renderables
/// are one per primitive, in order.
pub proof fn law_renderables_name_their_primitives(
    primitives: Seq<MeshPrimitiveTemplate>,
    renderable_objects_map: Map<ExternalId, u32>,
    materials_map: Map<ExternalId, u32>,
)
    ensures
        forall|i: int|
            0 <= i < primitives_renderables(primitives, renderable_objects_map, materials_map).len()
                ==> exists|j: int|
                0 <= j < primitives.len() && renderable_objects_map.contains_key(primitives[j].id)
                    && materials_map.contains_key(primitives[j].material_id) && #[trigger] primitives_renderables(
                    primitives,
                    renderable_objects_map,
                    materials_map,
                )[i] == (SceneGraphNodeRenderable {
                    renderable_object_internal_id: renderable_objects_map[primitives[j].id],
                    material_internal_id: materials_map[primitives[j].material_id],
                }),
        (forall|j: int|
            0 <= j < primitives.len() ==> renderable_objects_map.contains_key(#[trigger] primitives[j].id)
                && materials_map.contains_key(primitives[j].material_id)) ==> {
            &&& primitives_renderables(primitives, renderable_objects_map, materials_map).len()
                == primitives.len()
            &&& forall|i: int|
                0 <= i < primitives.len() ==> #[trigger] primitives_renderables(
                    primitives,
                    renderable_objects_map,
                    materials_map,
                )[i] == (SceneGraphNodeRenderable {
                    renderable_object_internal_id: renderable_objects_map[primitives[i].id],
                    material_internal_id: materials_map[primitives[i].material_id],
                })
        },
    decreases primitives.len(),
{
    if primitives.len() > 0 {
        let rest = primitives.drop_last();
        law_renderables_name_their_primitives(rest, renderable_objects_map, materials_map);
        let before = primitives_renderables(rest, renderable_objects_map, materials_map);
        let all = primitives_renderables(primitives, renderable_objects_map, materials_map);
        let p = primitives.last();
        assert forall|i: int| 0 <= i < all.len() implies exists|j: int|
            0 <= j < primitives.len() && renderable_objects_map.contains_key(primitives[j].id)
                && materials_map.contains_key(primitives[j].material_id) && #[trigger] all[i] == (
            SceneGraphNodeRenderable {
                renderable_object_internal_id: renderable_objects_map[primitives[j].id],
                material_internal_id: materials_map[primitives[j].material_id],
            }) by {
            if i < before.len() {
                assert(all[i] == before[i]);
                let j = choose|j: int|
                    0 <= j < rest.len() && renderable_objects_map.contains_key(rest[j].id)
                        && materials_map.contains_key(rest[j].material_id) && #[trigger] before[i] == (
                    SceneGraphNodeRenderable {
                        renderable_object_internal_id: renderable_objects_map[rest[j].id],
                        material_internal_id: materials_map[rest[j].material_id],
                    });
                assert(primitives[j] == rest[j]);
            } else {
                assert(primitives[primitives.len() - 1] == p);
            }
        }
        if forall|j: int|
            0 <= j < primitives.len() ==> renderable_objects_map.contains_key(#[trigger] primitives[j].id)
                && materials_map.contains_key(primitives[j].material_id) {
            assert forall|j: int| 0 <= j < rest.len() implies renderable_objects_map.contains_key(
                #[trigger] rest[j].id,
            ) && materials_map.contains_key(rest[j].material_id) by {
                assert(rest[j] == primitives[j]);
            }
            assert(renderable_objects_map.contains_key(primitives[primitives.len() - 1].id));
            assert forall|i: int| 0 <= i < primitives.len() implies #[trigger] all[i] == (
            SceneGraphNodeRenderable {
                renderable_object_internal_id: renderable_objects_map[primitives[i].id],
                material_internal_id: materials_map[primitives[i].material_id],
            }) by {
                if i < rest.len() {
                    assert(all[i] == before[i]);
                    assert(rest[i] == primitives[i]);
                }
            }
        }
    }
}

/// The renderables of the primitives of some meshes, mesh after mesh.
pub open spec fn meshes_renderables(
    meshes: Seq<MeshTemplate>,
    renderable_objects_map: Map<ExternalId, u32>,
    materials_map: Map<ExternalId, u32>,
) -> Seq<SceneGraphNodeRenderable>
    decreases meshes.len(),
{
    if meshes.len() == 0 {
        seq![]
    } else {
        meshes_renderables(meshes.drop_last(), renderable_objects_map, materials_map)
            + primitives_renderables(
            meshes.last().primitives@,
            renderable_objects_map,
            materials_map,
        )
    }
}

/// The scene graph built for a template: node `i` stands for model `i`, has
/// id `i`, is active, uses transform `i` (the model's world transform), has
/// no parent and no children, and draws the renderables of the model's
/// primitives.
pub open spec fn scene_built_from<C>(
    s: SceneInstance<C>,
    models: Seq<ModelTemplate>,
    renderable_objects_map: Map<ExternalId, u32>,
    materials_map: Map<ExternalId, u32>,
) -> bool {
    &&& s.graph.nodes@.len() == models.len()
    &&& s.transforms.spec_transforms().len() == models.len()
    &&& s.transforms.spec_root() == Transform::spec_default()
    &&& forall|i: int|
        #![trigger s.graph.nodes@[i]]
        0 <= i < models.len() ==> {
            &&& s.graph.nodes@[i].id == i
            &&& s.graph.nodes@[i].active
            &&& s.graph.nodes@[i].transform_internal_id == i
            &&& s.graph.nodes@[i].parent_node_id is None
            &&& s.graph.nodes@[i].children@.len() == 0
            &&& s.graph.nodes@[i].renderables@ == meshes_renderables(
                models[i].meshes@,
                renderable_objects_map,
                materials_map,
            )
            &&& s.transforms.spec_transforms()[i] == models[i].world_transform
        }
}

/// The material a template loads to when shader ids are not looked up.
pub open spec fn unlinked_material_from_template(m: Material, t: MaterialTemplate) -> bool {
    match t.material_type {
        MaterialTemplateType::Basic(bt) => m == Material::Basic(
            BasicMaterial { shader_internal_id: 0, is_transparent: bt.is_transparent },
        ),
        MaterialTemplateType::Unlit(ut) => m == Material::Unlit(
            UnlitMaterial {
                shader_internal_id: 0,
                texture_internal_id: 0,
                is_transparent: ut.is_transparent,
            },
        ),
    }
}

/// The renderables of one model's primitives, looked up in the maps.
fn model_renderables(
    model: &ModelTemplate,
    resource_map: &ResourcesMap,
) -> (r: Vec<SceneGraphNodeRenderable>)
    ensures
        r@ == meshes_renderables(
            model.meshes@,
            resource_map.renderable_objects_map@,
            resource_map.materials_map@,
        ),
{
    let ghost ro = resource_map.renderable_objects_map@;
    let ghost mm = resource_map.materials_map@;
    let mut renderables: Vec<SceneGraphNodeRenderable> = Vec::new();
    let mut j: usize = 0;
    while j < model.meshes.len()
        invariant
            ro == resource_map.renderable_objects_map@,
            mm == resource_map.materials_map@,
            j <= model.meshes@.len(),
            renderables@ == meshes_renderables(model.meshes@.take(j as int), ro, mm),
        decreases model.meshes@.len() - j,
    {
        let mesh = &model.meshes[j];
        let ghost start = renderables@;
        proof {
            assert(model.meshes@.take(j + 1).drop_last() =~= model.meshes@.take(j as int));
        }
        let mut k: usize = 0;
        while k < mesh.primitives.len()
            invariant
                ro == resource_map.renderable_objects_map@,
                mm == resource_map.materials_map@,
                k <= mesh.primitives@.len(),
                renderables@ == start + primitives_renderables(
                    mesh.primitives@.take(k as int),
                    ro,
                    mm,
                ),
            decreases mesh.primitives@.len() - k,
        {
            let primitive = &mesh.primitives[k];
            proof {
                assert(mesh.primitives@.take(k + 1).drop_last() =~= mesh.primitives@.take(k as int));
            }
            let renderable_obj_id = resource_map.renderable_objects_map.get_internal_id(
                &primitive.id,
            );
            let material_id = resource_map.materials_map.get_internal_id(&primitive.material_id);
            match (renderable_obj_id, material_id) {
                (Some(ro_id), Some(m_id)) => {
                    let renderable = SceneGraphNodeRenderable::create(ro_id, m_id);
                    renderables.push(renderable);
                },
                _ => {},
            }
            proof {
                assert(renderables@ =~= start + primitives_renderables(
                    mesh.primitives@.take(k + 1),
                    ro,
                    mm,
                ));
            }
            k = k + 1;
        }
        proof {
            assert(mesh.primitives@.take(k as int) =~= mesh.primitives@);
            assert(model.meshes@.take(j + 1).last() == *mesh);
        }
        j = j + 1;
    }
    proof {
        assert(model.meshes@.take(j as int) =~= model.meshes@);
    }
    renderables
}

/// Builds scenes from a scene template.
pub struct SceneLoader {
    template: SceneTemplate,
}

/// A freshly loaded scene and the resources it uses.
pub struct LoadedScene<C> {
    pub scene_instance: SceneInstance<C>,
    pub resources: NewResourcesCollection,
}

/// The scene that was replaced and its resources, still to be freed.
pub struct PreviousScene<C> {
    pub scene_instance: SceneInstance<C>,
    pub resources: PreviousResourcesCollection,
}

impl SceneLoader {
    pub closed spec fn template(&self) -> SceneTemplate {
        self.template
    }

    pub fn create(template: SceneTemplate) -> (r: Self)
        ensures
            r.template() == template,
    {
        SceneLoader { template }
    }

    pub fn set_template(&mut self, template: SceneTemplate)
        ensures
            final(self).template() == template,
    {
        self.template = template
    }

    /// The template the loader builds from.
    pub fn get_template(&self) -> (r: &SceneTemplate)
        ensures
            *r == self.template(),
    {
        &self.template
    }

    /// The primitives of the template that `build_scene_instance` leaves
    /// out for want of a renderable object or material id in `resource_map`,
    /// in model, mesh and primitive order, for the caller to report.
    pub fn skipped_primitives(&self, resource_map: &ResourcesMap) -> (r: Vec<SkippedPrimitive>)
        ensures
            r@ == skipped_of(
                primitive_id_pairs(self.template()),
                resource_map.renderable_objects_map@,
                resource_map.materials_map@,
            ),
    {
        let pairs = collect_primitive_id_pairs(&self.template);
        let ghost ro = resource_map.renderable_objects_map@;
        let ghost mm = resource_map.materials_map@;
        let mut r: Vec<SkippedPrimitive> = Vec::new();
        let mut i: usize = 0;
        proof {
            assert(pairs@.take(0) =~= Seq::<(ExternalId, ExternalId)>::empty());
        }
        while i < pairs.len()
            invariant
                ro == resource_map.renderable_objects_map@,
                mm == resource_map.materials_map@,
                i <= pairs@.len(),
                r@ == skipped_of(pairs@.take(i as int), ro, mm),
            decreases pairs@.len() - i,
        {
            let (id, material_id) = pairs[i];
            proof {
                assert(pairs@.take(i + 1).drop_last() =~= pairs@.take(i as int));
                assert(pairs@.take(i + 1).last() == pairs@[i as int]);
            }
            if resource_map.renderable_objects_map.get_internal_id(&id).is_none() {
                r.push(SkippedPrimitive::NoRenderableObject(id));
            } else if resource_map.materials_map.get_internal_id(&material_id).is_none() {
                r.push(SkippedPrimitive::NoMaterial(material_id));
            }
            i = i + 1;
        }
        proof {
            assert(pairs@.take(pairs@.len() as int) =~= pairs@);
        }
        r
    }

    /// Whether the template can be loaded (see `template_loadable`): all
    /// counts fit an internal id, every basic material names a shader of the
    /// template, and every primitive names a material of the template.
    pub fn is_loadable(&self) -> (r: bool)
        ensures
            r == template_loadable(self.template()),
    {
        let t = &self.template;
        if t.shaders.len() > 0xffff_ffffusize || t.textures.len() > 0xffff_ffffusize
            || t.materials.len() > 0xffff_ffffusize || t.models.len() > 0xffff_ffffusize {
            return false;
        }
        if mesh_count_capped(t) > 0xffff_ffffu64 {
            return false;
        }
        let primitive_pairs = collect_primitive_id_pairs(t);
        proof {
            assert(template_primitives(*t).len() == primitive_pairs@.len());
        }
        if primitive_pairs.len() > 0xffff_ffffusize {
            return false;
        }
        let shaders = collect_shader_ids(t);
        let materials = collect_material_ids(t);
        let mut i: usize = 0;
        while i < t.materials.len()
            invariant
                *t == self.template(),
                shaders@ == shader_ids(*t),
                i <= t.materials@.len(),
                forall|k: int|
                    0 <= k < i ==> ((#[trigger] t.materials@[k]).material_type matches MaterialTemplateType::Basic(bt)
                        ==> shader_ids(*t).contains(bt.shader_id)),
            decreases t.materials@.len() - i,
        {
            match &t.materials[i].material_type {
                MaterialTemplateType::Basic(bt) => {
                    if !contains_id(&shaders, bt.shader_id) {
                        proof {
                            assert(t.materials@[i as int].material_type matches MaterialTemplateType::Basic(b)
                                && !shader_ids(*t).contains(b.shader_id));

                        }
                        return false;
                    }
                },
                MaterialTemplateType::Unlit(_) => {},
            }
            i = i + 1;
        }
        let mut p: usize = 0;
        while p < primitive_pairs.len()
            invariant
                *t == self.template(),
                materials@ == material_ids(*t),
                primitive_pairs@ == primitive_id_pairs(*t),
                p <= primitive_pairs@.len(),
                forall|k: int| 0 <= k < p ==> material_ids(*t).contains(#[trigger] primitive_pairs@[k].1),
            decreases primitive_pairs@.len() - p,
        {
            if !contains_id(&materials, primitive_pairs[p].1) {
                proof {
                    assert(primitive_pairs@[p as int].1 == template_primitives(*t)[p as int].2.material_id);

                }
                return false;
            }
            p = p + 1;
        }
        proof {
            assert forall|q: int| 0 <= q < template_primitives(*t).len() implies material_ids(*t).contains(
                (#[trigger] template_primitives(*t)[q]).2.material_id,
            ) by {
                assert(primitive_pairs@[q].1 == template_primitives(*t)[q].2.material_id);
            }
        }
        true
    }

    /// Assembles the resources of the template. The GPU objects are made by
    /// the caller, in template order: a program per shader template, a
    /// texture per texture template, and the vertex arrays of each primitive
    /// (models, then their meshes, then their primitives, in order).
    /// Shaders, textures, materials, models, meshes and primitives are each
    /// numbered from zero in that order and registered under their external
    /// id (the first registration of an id wins). A basic material gets the
    /// internal id of its shader; an unlit one gets shader and texture 0.
    /// Every primitive gets a renderable object with the same internal id.
    pub fn load_resources(
        &self,
        shaders: Vec<Shader>,
        textures: Vec<Texture>,
        primitive_objects: Vec<PrimitiveGpuObjects>,
    ) -> (r: NewResourcesCollection)
        requires
            template_loadable(self.template()),
            shaders@.len() == self.template().shaders@.len(),
            textures@.len() == self.template().textures@.len(),
            primitive_objects@.len() == template_primitives(self.template()).len(),
        ensures
            resources_loaded_from(r, self.template(), shaders@, textures@, primitive_objects@),
    {
        let ghost t = self.template;
        let mut shaders_map = InternalIdMap::new();
        let mut i: usize = 0;
        while i < self.template.shaders.len()
            invariant
                t == self.template,
                i <= t.shaders@.len() <= u32::MAX,
                shaders_map@ == registered_ids(shader_ids(t).take(i as int)),
            decreases t.shaders@.len() - i,
        {
            proof {
                assert(shader_ids(t).take(i + 1).drop_last() =~= shader_ids(t).take(i as int));
            }
            shaders_map.add(&self.template.shaders[i].id, i as u32);
            i = i + 1;
        }
        proof {
            assert(shader_ids(t).take(i as int) =~= shader_ids(t));
        }
        let mut textures_map = InternalIdMap::new();
        let mut i: usize = 0;
        while i < self.template.textures.len()
            invariant
                t == self.template,
                i <= t.textures@.len() <= u32::MAX,
                textures_map@ == registered_ids(texture_ids(t).take(i as int)),
            decreases t.textures@.len() - i,
        {
            proof {
                assert(texture_ids(t).take(i + 1).drop_last() =~= texture_ids(t).take(i as int));
            }
            textures_map.add(&self.template.textures[i].id, i as u32);
            i = i + 1;
        }
        proof {
            assert(texture_ids(t).take(i as int) =~= texture_ids(t));
            crate::id_map::lemma_registered_ids_domain(shader_ids(t));
        }
        let mut materials: Vec<Material> = Vec::new();
        let mut materials_map = InternalIdMap::new();
        let mut i: usize = 0;
        while i < self.template.materials.len()
            invariant
                t == self.template,
                template_loadable(t),
                shaders_map@ == registered_ids(shader_ids(t)),
                shaders_map@.dom() == shader_ids(t).to_set(),
                i <= t.materials@.len() <= u32::MAX,
                materials@.len() == i,
                forall|k: int|
                    0 <= k < i ==> material_from_template(
                        #[trigger] materials@[k],
                        t.materials@[k],
                        registered_ids(shader_ids(t)),
                    ),
                materials_map@ == registered_ids(material_ids(t).take(i as int)),
            decreases t.materials@.len() - i,
        {
            let x = &self.template.materials[i];
            let material = match &x.material_type {
                MaterialTemplateType::Basic(bt) => {
                    proof {
                        assert(t.materials@[i as int] == *x);
                        assert(shader_ids(t).to_set().contains(bt.shader_id));
                    }
                    Material::Basic(
                        BasicMaterial {
                            shader_internal_id: shaders_map.get_internal_id(&bt.shader_id).unwrap(),
                            is_transparent: bt.is_transparent,
                        },
                    )
                },
                MaterialTemplateType::Unlit(ut) => Material::Unlit(
                    UnlitMaterial {
                        shader_internal_id: 0,
                        texture_internal_id: 0,
                        is_transparent: ut.is_transparent,
                    },
                ),
            };
            materials.push(material);
            proof {
                assert(material_ids(t).take(i + 1).drop_last() =~= material_ids(t).take(i as int));
            }
            materials_map.add(&x.id, i as u32);
            i = i + 1;
        }
        proof {
            assert(material_ids(t).take(i as int) =~= material_ids(t));
            crate::id_map::lemma_registered_ids_domain(material_ids(t));
            assert forall|p: int|
                0 <= p < template_primitives(t).len() implies materials_map@.contains_key(
                #[trigger] template_primitives(t)[p].2.material_id,
            ) by {
                assert(material_ids(t).contains(template_primitives(t)[p].2.material_id));
            }
        }
        let mut state = ModelsLoad {
            models: Vec::new(),
            meshes: Vec::new(),
            primitives: Vec::new(),
            renderable_objects: Vec::new(),
            model_ids: Vec::new(),
            mesh_ids: Vec::new(),
            primitive_ids: Vec::new(),
        };
        let ghost models = t.models@;
        proof {
            assert(models.take(0) =~= Seq::<ModelTemplate>::empty());
            assert(mesh_entries(models).take(0) =~= Seq::<(int, MeshTemplate)>::empty());
        }
        let mut mi: usize = 0;
        while mi < self.template.models.len()
            invariant
                t == self.template,
                models == t.models@,
                template_loadable(t),
                primitive_objects@.len() == template_primitives(t).len(),
                forall|p: int|
                    0 <= p < template_primitives(t).len() ==> materials_map@.contains_key(
                        #[trigger] template_primitives(t)[p].2.material_id,
                    ),
                mi <= models.len(),
                state.models@.len() == mi,
                models_loaded(state.models@, state.model_ids@, models),
                state.meshes@.len() == mesh_entries(models.take(mi as int)).len(),
                meshes_loaded(state.meshes@, state.mesh_ids@, mesh_entries(models)),
                state.primitives@.len() == primitive_entries(
                    mesh_entries(models).take(state.meshes@.len() as int),
                ).len(),
                primitives_loaded(
                    state.primitives@,
                    state.renderable_objects@,
                    state.primitive_ids@,
                    primitive_entries(mesh_entries(models)),
                    primitive_objects@,
                    materials_map@,
                ),
            decreases models.len() - mi,
        {
            let model = &self.template.models[mi];
            let mesh_ids = load_model_meshes(
                &mut state,
                model,
                &materials_map,
                &primitive_objects,
                Ghost(models),
            );
            let new_model = Model::create(&(mi as u32), mesh_ids, &model.local_transform);
            let ghost before = state.models@;
            let ghost before_ids = state.model_ids@;
            state.models.push(new_model);
            state.model_ids.push(model.id);
            proof {
                assert forall|i: int| #![trigger state.models@[i]] 0 <= i < state.models@.len() implies {
                    &&& state.models@[i].internal_id == i
                    &&& state.models@[i].meshes@ == consecutive_ids(
                        mesh_entries(models.take(i)).len() as int,
                        models[i].meshes@.len() as int,
                    )
                    &&& state.models@[i].local_transform == models[i].local_transform
                    &&& state.model_ids@[i] == models[i].id
                } by {
                    if i < before.len() {
                        assert(state.models@[i] == before[i]);
                        assert(state.model_ids@[i] == before_ids[i]);
                    }
                }
            }
            mi = mi + 1;
        }
        proof {
            assert(models.take(mi as int) =~= models);
            assert(mesh_entries(models).take(state.meshes@.len() as int) =~= mesh_entries(models));
            assert(state.meshes@.len() == mesh_entries(models).len());
            assert(state.primitives@.len() == template_primitives(t).len());
            lemma_loaded_primitive_ids(
                state.primitives@,
                state.renderable_objects@,
                state.primitive_ids@,
                primitive_entries(mesh_entries(models)),
                primitive_objects@,
                materials_map@,
            );
            lemma_loaded_mesh_ids(state.meshes@, state.mesh_ids@, mesh_entries(models));
            lemma_loaded_model_ids(state.models@, state.model_ids@, models);
            assert(state.primitive_ids@ =~= primitive_ids(t));
            assert(state.mesh_ids@ =~= mesh_ids(t));
            assert(state.model_ids@ =~= model_ids(t));
        }
        let models_map = InternalIdMap::from_ids(&state.model_ids);
        let meshes_map = InternalIdMap::from_ids(&state.mesh_ids);
        let mesh_primitives_map = InternalIdMap::from_ids(&state.primitive_ids);
        let renderable_objects_map = InternalIdMap::from_ids(&state.primitive_ids);
        NewResourcesCollection {
            renderable_objects: state.renderable_objects,
            textures,
            shaders,
            materials,
            models: state.models,
            meshes: state.meshes,
            primitives: state.primitives,
            resource_map: ResourcesMap {
                materials_map,
                textures_map,
                shaders_map,
                models_map,
                meshes_map,
                mesh_primitives_map,
                renderable_objects_map,
            },
        }
    }

    /// The materials of the template with every shader and texture id 0.
    pub fn load_materials(&mut self) -> (r: Vec<Material>)
        ensures
            final(self).template() == old(self).template(),
            r@.len() == old(self).template().materials@.len(),
            forall|k: int|
                0 <= k < r@.len() ==> unlinked_material_from_template(
                    #[trigger] r@[k],
                    old(self).template().materials@[k],
                ),
    {
        let mut result: Vec<Material> = Vec::new();
        let mut i: usize = 0;
        while i < self.template.materials.len()
            invariant
                self.template() == old(self).template(),
                i <= self.template.materials@.len(),
                result@.len() == i,
                forall|k: int|
                    0 <= k < i ==> unlinked_material_from_template(
                        #[trigger] result@[k],
                        self.template.materials@[k],
                    ),
            decreases self.template.materials@.len() - i,
        {
            let x = &self.template.materials[i];
            let material = match &x.material_type {
                MaterialTemplateType::Basic(bt) => Material::Basic(
                    BasicMaterial { shader_internal_id: 0, is_transparent: bt.is_transparent },
                ),
                MaterialTemplateType::Unlit(ut) => Material::Unlit(
                    UnlitMaterial {
                        shader_internal_id: 0,
                        texture_internal_id: 0,
                        is_transparent: ut.is_transparent,
                    },
                ),
            };
            result.push(material);
            i = i + 1;
        }
        result
    }

    /// The scene of the template: a node per model (see `scene_built_from`),
    /// the models' world transforms, an identity root, and `main_camera`.
    /// A primitive whose renderable object or material has no internal id
    /// in `resource_map` is left out of its node.
    pub fn build_scene_instance<C>(&self, main_camera: C, resource_map: &ResourcesMap) -> (r:
        SceneInstance<C>)
        requires
            self.template().models@.len() <= u32::MAX,
        ensures
            scene_built_from(
                r,
                self.template().models@,
                resource_map.renderable_objects_map@,
                resource_map.materials_map@,
            ),
            r.main_camera == main_camera,
    {
        let ghost models = self.template.models@;
        let ghost ro = resource_map.renderable_objects_map@;
        let ghost mm = resource_map.materials_map@;
        let mut nodes: Vec<SceneGraphNode> = Vec::new();
        let mut transforms: Vec<Transform> = Vec::new();
        let mut i: usize = 0;
        while i < self.template.models.len()
            invariant
                models == self.template.models@,
                models.len() <= u32::MAX,
                ro == resource_map.renderable_objects_map@,
                mm == resource_map.materials_map@,
                i <= models.len(),
                nodes@.len() == i,
                transforms@.len() == i,
                forall|k: int|
                    #![trigger nodes@[k]]
                    0 <= k < i ==> {
                        &&& nodes@[k].id == k
                        &&& nodes@[k].active
                        &&& nodes@[k].transform_internal_id == k
                        &&& nodes@[k].parent_node_id is None
                        &&& nodes@[k].children@.len() == 0
                        &&& nodes@[k].renderables@ == meshes_renderables(models[k].meshes@, ro, mm)
                        &&& transforms@[k] == models[k].world_transform
                    },
            decreases models.len() - i,
        {
            let model = &self.template.models[i];
            transforms.push(model.world_transform);
            let renderables = model_renderables(model, resource_map);
            nodes.push(
                SceneGraphNode {
                    id: i as u32,
                    active: true,
                    transform_internal_id: i as u32,
                    parent_node_id: None,
                    children: Vec::new(),
                    renderables,
                },
            );
            i = i + 1;
        }
        SceneInstance::create(nodes, transforms, Transform::default(), main_camera)
    }

    /// Loads the resources of the template (see `load_resources`) and the
    /// scene built on their maps (see `build_scene_instance`).
    pub fn load_scene<C>(
        &self,
        shaders: Vec<Shader>,
        textures: Vec<Texture>,
        primitive_objects: Vec<PrimitiveGpuObjects>,
        main_camera: C,
    ) -> (r: LoadedScene<C>)
        requires
            template_loadable(self.template()),
            shaders@.len() == self.template().shaders@.len(),
            textures@.len() == self.template().textures@.len(),
            primitive_objects@.len() == template_primitives(self.template()).len(),
        ensures
            resources_loaded_from(
                r.resources,
                self.template(),
                shaders@,
                textures@,
                primitive_objects@,
            ),
            scene_built_from(
                r.scene_instance,
                self.template().models@,
                r.resources.resource_map.renderable_objects_map@,
                r.resources.resource_map.materials_map@,
            ),
            r.scene_instance.main_camera == main_camera,
    {
        let new_resources = self.load_resources(shaders, textures, primitive_objects);
        let new_scene = self.build_scene_instance(main_camera, &new_resources.resource_map);
        LoadedScene { scene_instance: new_scene, resources: new_resources }
    }
}

} // verus!
