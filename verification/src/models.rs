use crate::geometry::{flatten_vertices, Vertex, VertexAttributesLayout, VertexAttributesLayoutItem, VertexCollection, vertices_words};
use crate::gpu_objects::VertexArrayObject;
use crate::id_map::{ExternalId, InternalIdMap};
use crate::maths::{F32Bits, Transform};
use vstd::prelude::*;

verus! {

// Models, meshes and mesh primitives are kept in flat vectors and refer to
// each other by internal ids (their indexes); primitives are what gets drawn.
pub type ModelInternalId = u32;

pub type MeshInternalId = u32;

pub type MeshPrimitiveInternalId = u32;

pub struct Model {
    pub internal_id: ModelInternalId,
    pub meshes: Vec<MeshInternalId>,
    pub local_transform: Transform,
}

pub struct Mesh {
    pub internal_id: MeshInternalId,
    pub model_internal_id: ModelInternalId,
    pub primitives: Vec<MeshPrimitiveInternalId>,
    pub local_transform: Transform,
}

pub struct MeshPrimitive {
    pub internal_id: MeshPrimitiveInternalId,
    pub model_internal_id: ModelInternalId,
    pub mesh_internal_id: MeshInternalId,
    pub material_internal_id: u32,
    pub layout: VertexAttributesLayout,
    pub local_transform: Transform,
    pub voa: VertexArrayObject,
    pub indices_count: i32,
}

impl Model {
    /// A model with the given id, meshes and local transform.
    pub fn create(
        internal_id: &ModelInternalId,
        meshes: Vec<MeshInternalId>,
        transform: &Transform,
    ) -> (r: Self)
        ensures
            r.internal_id == *internal_id,
            r.meshes@ == meshes@,
            r.local_transform == *transform,
    {
        Model { internal_id: *internal_id, meshes, local_transform: *transform }
    }
}

impl Mesh {
    /// A mesh with the given ids, primitives and local transform.
    pub fn create(
        internal_id: &MeshInternalId,
        model_internal_id: &ModelInternalId,
        primitives: Vec<MeshPrimitiveInternalId>,
        transform: &Transform,
    ) -> (r: Self)
        ensures
            r.internal_id == *internal_id,
            r.model_internal_id == *model_internal_id,
            r.primitives@ == primitives@,
            r.local_transform == *transform,
    {
        Mesh {
            internal_id: *internal_id,
            model_internal_id: *model_internal_id,
            primitives,
            local_transform: *transform,
        }
    }
}

impl MeshPrimitive {
    /// A primitive for `vertices_collection`, drawn from `voa` (the vertex
    /// array its data was uploaded to, with the attribute pointers of its layout).
    pub fn build(
        vertices_collection: &VertexCollection,
        internal_id: &MeshPrimitiveInternalId,
        model_internal_id: &ModelInternalId,
        mesh_internal_id: &MeshInternalId,
        material_internal_id: &u32,
        transform: &Transform,
        voa: VertexArrayObject,
    ) -> (r: Self)
        ensures
            r.internal_id == *internal_id,
            r.model_internal_id == *model_internal_id,
            r.mesh_internal_id == *mesh_internal_id,
            r.material_internal_id == *material_internal_id,
            r.layout.size == vertices_collection.spec_layout_size(),
            r.layout.items@ == vertices_collection.spec_layout_items(),
            r.local_transform == *transform,
            r.voa == voa,
            r.indices_count == vertices_collection.spec_indices().len() as i32,
    {
        MeshPrimitive {
            internal_id: *internal_id,
            model_internal_id: *model_internal_id,
            mesh_internal_id: *mesh_internal_id,
            material_internal_id: *material_internal_id,
            layout: vertices_collection.clone_layout(),
            local_transform: *transform,
            voa,
            indices_count: vertices_collection.get_indices_count(),
        }
    }
}

pub struct ModelBuilder {
    transform: Transform,
    meshes: Vec<MeshBuilder>,
}

pub struct MeshBuilder {
    transform: Transform,
    primitives: Vec<MeshPrimitiveBuilder>,
}

pub struct MeshPrimitiveBuilder {
    vertex_layout: VertexAttributesLayout,
    vertices_data: Vec<F32Bits>,
    indices: Vec<u32>,
    transform: Transform,
    material_id: ExternalId,
}

impl ModelBuilder {
    pub closed spec fn spec_transform(&self) -> Transform {
        self.transform
    }

    pub closed spec fn spec_meshes(&self) -> Seq<MeshBuilder> {
        self.meshes@
    }

    pub fn new(transform: Transform, meshes: Vec<MeshBuilder>) -> (r: Self)
        ensures
            r.spec_transform() == transform,
            r.spec_meshes() == meshes@,
    {
        ModelBuilder { transform, meshes }
    }
}

impl MeshBuilder {
    pub closed spec fn spec_transform(&self) -> Transform {
        self.transform
    }

    pub closed spec fn spec_primitives(&self) -> Seq<MeshPrimitiveBuilder> {
        self.primitives@
    }

    /// A mesh builder with the identity transform and no primitives.
    pub fn new() -> (r: Self)
        ensures
            r.spec_transform() == Transform::spec_default(),
            r.spec_primitives() == Seq::<MeshPrimitiveBuilder>::empty(),
    {
        MeshBuilder { transform: Transform::default(), primitives: Vec::new() }
    }

    pub fn with_transform(self, transform: Transform) -> (r: Self)
        ensures
            r.spec_transform() == transform,
            r.spec_primitives() == self.spec_primitives(),
    {
        let mut s = self;
        s.transform = transform;
        s
    }

    pub fn add_primitive(self, mesh_primitive_builder: MeshPrimitiveBuilder) -> (r: Self)
        ensures
            r.spec_transform() == self.spec_transform(),
            r.spec_primitives() == self.spec_primitives().push(mesh_primitive_builder),
    {
        let mut s = self;
        s.primitives.push(mesh_primitive_builder);
        s
    }

    pub fn with_primitives(self, mesh_primitive_builders: Vec<MeshPrimitiveBuilder>) -> (r: Self)
        ensures
            r.spec_transform() == self.spec_transform(),
            r.spec_primitives() == mesh_primitive_builders@,
    {
        let mut s = self;
        s.primitives = mesh_primitive_builders;
        s
    }

    /// The mesh with the given ids and primitives and this builder's transform.
    pub fn build(
        &self,
        internal_id: MeshInternalId,
        model_internal_id: ModelInternalId,
        primitives: Vec<MeshPrimitiveInternalId>,
    ) -> (r: Mesh)
        ensures
            r.internal_id == internal_id,
            r.model_internal_id == model_internal_id,
            r.primitives@ == primitives@,
            r.local_transform == self.spec_transform(),
    {
        Mesh { internal_id, model_internal_id, primitives, local_transform: self.transform }
    }
}

impl MeshPrimitiveBuilder {
    pub closed spec fn spec_layout_size(&self) -> i32 {
        self.vertex_layout.size
    }

    pub closed spec fn spec_layout_items(&self) -> Seq<VertexAttributesLayoutItem> {
        self.vertex_layout.items@
    }

    pub closed spec fn spec_vertices_data(&self) -> Seq<F32Bits> {
        self.vertices_data@
    }

    pub closed spec fn spec_indices(&self) -> Seq<u32> {
        self.indices@
    }

    pub closed spec fn spec_transform(&self) -> Transform {
        self.transform
    }

    pub closed spec fn spec_material_id(&self) -> ExternalId {
        self.material_id
    }

    /// A builder for a primitive of the given material: empty layout, no
    /// vertices, no indices, identity transform.
    pub fn new(material_id: ExternalId) -> (r: Self)
        ensures
            r.spec_layout_size() == 0,
            r.spec_layout_items() == Seq::<VertexAttributesLayoutItem>::empty(),
            r.spec_vertices_data() == Seq::<F32Bits>::empty(),
            r.spec_indices() == Seq::<u32>::empty(),
            r.spec_transform() == Transform::spec_default(),
            r.spec_material_id() == material_id,
    {
        MeshPrimitiveBuilder {
            vertex_layout: VertexAttributesLayout { size: 0, items: Vec::new() },
            vertices_data: Vec::new(),
            indices: Vec::new(),
            transform: Transform::default(),
            material_id,
        }
    }

    pub fn with_vertex_layout(self, vertex_layout: VertexAttributesLayout) -> (r: Self)
        ensures
            r.spec_layout_size() == vertex_layout.size,
            r.spec_layout_items() == vertex_layout.items@,
            r.spec_vertices_data() == self.spec_vertices_data(),
            r.spec_indices() == self.spec_indices(),
            r.spec_transform() == self.spec_transform(),
            r.spec_material_id() == self.spec_material_id(),
    {
        let mut s = self;
        s.vertex_layout = vertex_layout;
        s
    }

    pub fn with_transform(self, transform: Transform) -> (r: Self)
        ensures
            r.spec_layout_size() == self.spec_layout_size(),
            r.spec_layout_items() == self.spec_layout_items(),
            r.spec_vertices_data() == self.spec_vertices_data(),
            r.spec_indices() == self.spec_indices(),
            r.spec_transform() == transform,
            r.spec_material_id() == self.spec_material_id(),
    {
        let mut s = self;
        s.transform = transform;
        s
    }

    /// Replaces the vertex data by the interleaved components of `vertices`.
    pub fn with_vertices(self, vertices: Vec<Vertex>) -> (r: Self)
        ensures
            r.spec_layout_size() == self.spec_layout_size(),
            r.spec_layout_items() == self.spec_layout_items(),
            r.spec_vertices_data() == vertices_words(vertices@),
            r.spec_indices() == self.spec_indices(),
            r.spec_transform() == self.spec_transform(),
            r.spec_material_id() == self.spec_material_id(),
    {
        let mut s = self;
        s.vertices_data = flatten_vertices(&vertices);
        s
    }

    pub fn with_indices(self, indices: Vec<u32>) -> (r: Self)
        ensures
            r.spec_layout_size() == self.spec_layout_size(),
            r.spec_layout_items() == self.spec_layout_items(),
            r.spec_vertices_data() == self.spec_vertices_data(),
            r.spec_indices() == indices@,
            r.spec_transform() == self.spec_transform(),
            r.spec_material_id() == self.spec_material_id(),
    {
        let mut s = self;
        s.indices = indices;
        s
    }

    /// The vertex data to upload to the vertex buffer.
    pub fn vertices_data(&self) -> (r: &[F32Bits])
        ensures
            r@ == self.spec_vertices_data(),
    {
        self.vertices_data.as_slice()
    }

    /// The indices to upload to the index buffer.
    pub fn indices(&self) -> (r: &[u32])
        ensures
            r@ == self.spec_indices(),
    {
        self.indices.as_slice()
    }

    /// The layout whose attribute pointers the vertex array gets.
    pub fn vertex_layout(&self) -> (r: &VertexAttributesLayout)
        ensures
            r.size == self.spec_layout_size(),
            r.items@ == self.spec_layout_items(),
    {
        &self.vertex_layout
    }

    /// The primitive this builder describes, drawn from `voa`.
    pub fn build(
        &self,
        internal_id: MeshPrimitiveInternalId,
        model_internal_id: ModelInternalId,
        mesh_internal_id: MeshInternalId,
        material_internal_id: u32,
        voa: VertexArrayObject,
    ) -> (r: MeshPrimitive)
        ensures
            r.internal_id == internal_id,
            r.model_internal_id == model_internal_id,
            r.mesh_internal_id == mesh_internal_id,
            r.material_internal_id == material_internal_id,
            r.layout.size == self.spec_layout_size(),
            r.layout.items@ == self.spec_layout_items(),
            r.local_transform == self.spec_transform(),
            r.voa == voa,
            r.indices_count == self.spec_indices().len() as i32,
    {
        MeshPrimitive {
            internal_id,
            model_internal_id,
            mesh_internal_id,
            material_internal_id,
            layout: self.vertex_layout.duplicate(),
            local_transform: self.transform,
            voa,
            indices_count: self.indices.len() as i32,
        }
    }
}

/// The number of primitives of all the meshes.
pub open spec fn primitive_count(meshes: Seq<MeshBuilder>) -> nat
    decreases meshes.len(),
{
    if meshes.len() == 0 {
        0
    } else {
        primitive_count(meshes.drop_last()) + meshes.last().spec_primitives().len()
    }
}

proof fn lemma_primitive_count_prefix(meshes: Seq<MeshBuilder>, m: int)
    requires
        0 <= m < meshes.len(),
    ensures
        primitive_count(meshes.take(m + 1)) == primitive_count(meshes.take(m))
            + meshes[m].spec_primitives().len(),
        primitive_count(meshes.take(m + 1)) <= primitive_count(meshes),
{
    assert(meshes.take(m + 1).drop_last() =~= meshes.take(m));
    lemma_primitive_count_monotone(meshes, m + 1);
}

proof fn lemma_primitive_count_prefixes(meshes: Seq<MeshBuilder>, a: int, b: int)
    requires
        0 <= a <= b <= meshes.len(),
    ensures
        primitive_count(meshes.take(a)) <= primitive_count(meshes.take(b)),
    decreases b - a,
{
    if a < b {
        lemma_primitive_count_prefix(meshes, b - 1);
        lemma_primitive_count_prefixes(meshes, a, b - 1);
    }
}

proof fn lemma_primitive_count_monotone(meshes: Seq<MeshBuilder>, m: int)
    requires
        0 <= m <= meshes.len(),
    ensures
        primitive_count(meshes.take(m)) <= primitive_count(meshes),
    decreases meshes.len() - m,
{
    if m < meshes.len() {
        lemma_primitive_count_monotone(meshes, m + 1);
        assert(meshes.take(m + 1).drop_last() =~= meshes.take(m));
    } else {
        assert(meshes.take(m) =~= meshes);
    }
}

/// `p` is the primitive that builder `b` describes, with the given ids, drawn from `voa`.
pub open spec fn primitive_built_from(
    p: MeshPrimitive,
    b: MeshPrimitiveBuilder,
    internal_id: int,
    model_internal_id: int,
    mesh_internal_id: int,
    material_internal_id: int,
    voa: VertexArrayObject,
) -> bool {
    &&& p.internal_id == internal_id
    &&& p.model_internal_id == model_internal_id
    &&& p.mesh_internal_id == mesh_internal_id
    &&& p.material_internal_id == material_internal_id
    &&& p.layout.size == b.spec_layout_size()
    &&& p.layout.items@ == b.spec_layout_items()
    &&& p.local_transform == b.spec_transform()
    &&& p.voa == voa
    &&& p.indices_count == b.spec_indices().len() as i32
}

/// `mesh` is the mesh that builder `b` describes, with the given ids, its
/// primitives being the consecutive ids from `first_primitive`.
pub open spec fn mesh_built_from(
    mesh: Mesh,
    b: MeshBuilder,
    internal_id: int,
    model_internal_id: int,
    first_primitive: int,
) -> bool {
    &&& mesh.internal_id == internal_id
    &&& mesh.model_internal_id == model_internal_id
    &&& mesh.local_transform == b.spec_transform()
    &&& mesh.primitives@ == Seq::new(
        b.spec_primitives().len(),
        |j: int| (first_primitive + j) as MeshPrimitiveInternalId,
    )
}

pub struct NewModelStoreResources {
    pub models: Vec<Model>,
    pub meshes: Vec<Mesh>,
    pub primitives: Vec<MeshPrimitive>,
    pub models_id_map: InternalIdMap,
    pub meshes_id_map: InternalIdMap,
    pub primitives_id_map: InternalIdMap,
}

pub struct PreviousModelStoreResources {
    pub models: Vec<Model>,
    pub meshes: Vec<Mesh>,
    pub primitives: Vec<MeshPrimitive>,
}

/// The models, meshes and primitives of the loaded scene.
pub struct ModelStore {
    models: Vec<Model>,
    meshes: Vec<Mesh>,
    primitives: Vec<MeshPrimitive>,
}

impl ModelStore {
    pub closed spec fn spec_models(&self) -> Seq<Model> {
        self.models@
    }

    pub closed spec fn spec_meshes(&self) -> Seq<Mesh> {
        self.meshes@
    }

    pub closed spec fn spec_primitives(&self) -> Seq<MeshPrimitive> {
        self.primitives@
    }

    pub fn new() -> (r: Self)
        ensures
            r.spec_models() == Seq::<Model>::empty(),
            r.spec_meshes() == Seq::<Mesh>::empty(),
            r.spec_primitives() == Seq::<MeshPrimitive>::empty(),
    {
        ModelStore { models: Vec::new(), meshes: Vec::new(), primitives: Vec::new() }
    }

    /// Adds the meshes and primitives a model builder describes. Each
    /// primitive gets the next primitive id and is drawn from the next vertex
    /// array of `voas` (the vertex arrays its data was uploaded to, in
    /// order); each mesh gets the next mesh id and the ids of its
    /// primitives; all of them get the next model id and material 0. The
    /// model itself is not added.
    #[verifier::rlimit(60)]
    pub fn add(&mut self, model_builder: &ModelBuilder, voas: &Vec<VertexArrayObject>)
        requires
            voas@.len() == primitive_count(model_builder.spec_meshes()),
            old(self).spec_models().len() <= u32::MAX,
            old(self).spec_meshes().len() + model_builder.spec_meshes().len() <= u32::MAX,
            old(self).spec_primitives().len() + primitive_count(model_builder.spec_meshes())
                <= u32::MAX,
        ensures
            final(self).spec_models() == old(self).spec_models(),
            final(self).spec_meshes().len() == old(self).spec_meshes().len()
                + model_builder.spec_meshes().len(),
            final(self).spec_meshes().subrange(0, old(self).spec_meshes().len() as int) == old(
                self,
            ).spec_meshes(),
            forall|m: int|
                0 <= m < model_builder.spec_meshes().len() ==> mesh_built_from(
                    #[trigger] final(self).spec_meshes()[old(self).spec_meshes().len() + m],
                    model_builder.spec_meshes()[m],
                    old(self).spec_meshes().len() + m,
                    old(self).spec_models().len() as int,
                    (old(self).spec_primitives().len() + primitive_count(
                        model_builder.spec_meshes().take(m),
                    )) as int,
                ),
            final(self).spec_primitives().len() == old(self).spec_primitives().len()
                + primitive_count(model_builder.spec_meshes()),
            final(self).spec_primitives().subrange(0, old(self).spec_primitives().len() as int)
                == old(self).spec_primitives(),
            forall|m: int, j: int|
                #![trigger model_builder.spec_meshes()[m].spec_primitives()[j]]
                0 <= m < model_builder.spec_meshes().len() && 0 <= j
                    < model_builder.spec_meshes()[m].spec_primitives().len() ==> {
                    let p = primitive_count(model_builder.spec_meshes().take(m)) + j;
                    primitive_built_from(
                        final(self).spec_primitives()[old(self).spec_primitives().len() + p],
                        model_builder.spec_meshes()[m].spec_primitives()[j],
                        old(self).spec_primitives().len() + p,
                        old(self).spec_models().len() as int,
                        old(self).spec_meshes().len() + m,
                        0,
                        voas@[p],
                    )
                },
    {
        let ghost meshes = model_builder.spec_meshes();
        let ghost old_p: int = self.primitives@.len() as int;
        let ghost old_m: int = self.meshes@.len() as int;
        let next_model_id = self.models.len();
        let mut primitive_ids: Vec<MeshPrimitiveInternalId> = Vec::new();
        let mut voa_index: usize = 0;
        let mut m: usize = 0;
        while m < model_builder.meshes.len()
            invariant
                meshes == model_builder.spec_meshes(),
                m <= meshes.len(),
                voas@.len() == primitive_count(meshes),
                next_model_id == old(self).spec_models().len() <= u32::MAX,
                old_m == old(self).spec_meshes().len(),
                old_p == old(self).spec_primitives().len(),
                old_m + meshes.len() <= u32::MAX,
                old_p + primitive_count(meshes) <= u32::MAX,
                voa_index == primitive_count(meshes.take(m as int)),
                voa_index <= primitive_count(meshes),
                primitive_ids@.len() == 0,
                self.models@ == old(self).spec_models(),
                self.meshes@.len() == old_m + m,
                self.meshes@.subrange(0, old_m as int) == old(self).spec_meshes(),
                forall|k: int|
                    0 <= k < m ==> mesh_built_from(
                        #[trigger] self.meshes@[old_m + k],
                        meshes[k],
                        old_m + k,
                        next_model_id as int,
                        old_p + primitive_count(meshes.take(k)),
                    ),
                self.primitives@.len() == old_p + voa_index,
                self.primitives@.subrange(0, old_p as int) == old(self).spec_primitives(),
                forall|k: int, j: int|
                    #![trigger meshes[k].spec_primitives()[j]]
                    0 <= k < m && 0 <= j < meshes[k].spec_primitives().len() ==> {
                        let p = primitive_count(meshes.take(k)) + j;
                        primitive_built_from(
                            self.primitives@[old_p + p],
                            meshes[k].spec_primitives()[j],
                            old_p + p,
                            next_model_id as int,
                            old_m + k,
                            0,
                            voas@[p],
                        )
                    },
            decreases meshes.len() - m,
        {
            let mesh = &model_builder.meshes[m];
            let next_mesh_id = self.meshes.len();
            let ghost first = voa_index as int;
            proof {
                lemma_primitive_count_prefix(meshes, m as int);
            }
            let mut j: usize = 0;
            while j < mesh.primitives.len()
                invariant
                    meshes == model_builder.spec_meshes(),
                    m < meshes.len(),
                    *mesh == meshes[m as int],
                    j <= mesh.spec_primitives().len(),
                    voas@.len() == primitive_count(meshes),
                    next_model_id == old(self).spec_models().len() <= u32::MAX,
                    next_mesh_id == old_m + m,
                    old_m == old(self).spec_meshes().len(),
                    old_p == old(self).spec_primitives().len(),
                    old_m + meshes.len() <= u32::MAX,
                    old_p + primitive_count(meshes) <= u32::MAX,
                    first == primitive_count(meshes.take(m as int)),
                    primitive_count(meshes.take(m + 1)) == first + mesh.spec_primitives().len(),
                    primitive_count(meshes.take(m + 1)) <= primitive_count(meshes),
                    voa_index == first + j,
                    primitive_ids@ == Seq::new(
                        j as nat,
                        |q: int| (old_p + first + q) as MeshPrimitiveInternalId,
                    ),
                    self.models@ == old(self).spec_models(),
                    self.meshes@.len() == old_m + m,
                    self.meshes@.subrange(0, old_m as int) == old(self).spec_meshes(),
                    forall|k: int|
                        0 <= k < m ==> mesh_built_from(
                            #[trigger] self.meshes@[old_m + k],
                            meshes[k],
                            old_m + k,
                            next_model_id as int,
                            old_p + primitive_count(meshes.take(k)),
                        ),
                    self.primitives@.len() == old_p + voa_index,
                    self.primitives@.subrange(0, old_p as int) == old(self).spec_primitives(),
                    forall|k: int, i: int|
                        #![trigger meshes[k].spec_primitives()[i]]
                        0 <= k < m && 0 <= i < meshes[k].spec_primitives().len() ==> {
                            let p = primitive_count(meshes.take(k)) + i;
                            primitive_built_from(
                                self.primitives@[old_p + p],
                                meshes[k].spec_primitives()[i],
                                old_p + p,
                                next_model_id as int,
                                old_m + k,
                                0,
                                voas@[p],
                            )
                        },
                    forall|i: int|
                        0 <= i < j ==> primitive_built_from(
                            self.primitives@[old_p + first + i],
                            #[trigger] meshes[m as int].spec_primitives()[i],
                            old_p + first + i,
                            next_model_id as int,
                            old_m + m,
                            0,
                            voas@[first + i],
                        ),
                decreases mesh.spec_primitives().len() - j,
            {
                let next_primitive_id = self.primitives.len();
                let prim = mesh.primitives[j].build(
                    next_primitive_id as u32,
                    next_model_id as u32,
                    next_mesh_id as u32,
                    0,
                    voas[voa_index],
                );
                let ghost before = self.primitives@;
                self.primitives.push(prim);
                primitive_ids.push(next_primitive_id as u32);
                proof {
                    assert(self.primitives@.subrange(0, old_p as int) =~= before.subrange(0, old_p as int));
                    assert forall|k: int, i: int|
                        0 <= k < m && 0 <= i < meshes[k].spec_primitives().len() implies {
                            let p = primitive_count(meshes.take(k)) + i;
                            primitive_built_from(
                                self.primitives@[old_p + p],
                                #[trigger] meshes[k].spec_primitives()[i],
                                old_p + p,
                                next_model_id as int,
                                old_m + k,
                                0,
                                voas@[p],
                            )
                        } by {
                        lemma_primitive_count_prefix(meshes, k);
                        lemma_primitive_count_prefixes(meshes, k + 1, m as int);
                        let p = primitive_count(meshes.take(k)) + i;
                        assert(self.primitives@[old_p + p] == before[old_p + p]);
                    }
                    assert(primitive_ids@ =~= Seq::new(
                        (j + 1) as nat,
                        |q: int| (old_p + first + q) as MeshPrimitiveInternalId,
                    ));
                }
                voa_index = voa_index + 1;
                j = j + 1;
            }
            let new_mesh = mesh.build(
                next_mesh_id as u32,
                next_model_id as u32,
                primitive_ids.clone(),
            );
            let ghost before_meshes = self.meshes@;
            self.meshes.push(new_mesh);
            primitive_ids.clear();
            proof {
                assert(self.meshes@.subrange(0, old_m as int) =~= before_meshes.subrange(0, old_m as int));
            }
            m = m + 1;
        }
        proof {
            assert(meshes.take(m as int) =~= meshes);
        }
    }

    pub fn get_primitives(&self) -> (r: &[MeshPrimitive])
        ensures
            r@ == self.spec_primitives(),
    {
        self.primitives.as_slice()
    }

    /// The primitive with internal id `id`, if there is one.
    pub fn get_primitive(&self, id: MeshPrimitiveInternalId) -> (r: Option<&MeshPrimitive>)
        ensures
            r is Some <==> id < self.spec_primitives().len(),
            r matches Some(p) ==> *p == self.spec_primitives()[id as int],
    {
        if (id as usize) < self.primitives.len() {
            Some(&self.primitives[id as usize])
        } else {
            None
        }
    }

    /// Installs new models, meshes and primitives and hands back the
    /// previous ones (their GPU objects are still alive).
    pub fn swap_resources(&mut self, new_model_store_resources: NewModelStoreResources) -> (r:
        PreviousModelStoreResources)
        ensures
            final(self).spec_models() == new_model_store_resources.models@,
            final(self).spec_meshes() == new_model_store_resources.meshes@,
            final(self).spec_primitives() == new_model_store_resources.primitives@,
            r.models@ == old(self).spec_models(),
            r.meshes@ == old(self).spec_meshes(),
            r.primitives@ == old(self).spec_primitives(),
    {
        let NewModelStoreResources { mut models, mut meshes, mut primitives, .. } =
            new_model_store_resources;
        std::mem::swap(&mut self.models, &mut models);
        std::mem::swap(&mut self.meshes, &mut meshes);
        std::mem::swap(&mut self.primitives, &mut primitives);
        PreviousModelStoreResources { models, meshes, primitives }
    }
}

} // verus!
