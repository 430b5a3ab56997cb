use crate::gl_enums::VertexAttributePointerType;
use crate::gpu_objects::{
    words_as_bytes, words_be_bytes, words_le_bytes, BufferObject, VertexArrayObject,
    VertexAttributePointer,
};
use crate::maths::{F32Bits, Float2, Float3, Float4};
use crate::templates::MeshPrimitiveTemplate;
use vstd::prelude::*;

verus! {

pub type RenderableObjectInternalId = u32;

/// One attribute of a vertex, with its components held as `f32` bits.
#[derive(Clone, Copy, PartialEq, Eq, Structural, Debug)]
pub enum VertexAttribute {
    Float(F32Bits),
    Float2(Float2),
    Float3(Float3),
    Float4(Float4),
    Absent,
}

/// The components an attribute contributes to the vertex data, in order.
pub open spec fn attribute_words(a: VertexAttribute) -> Seq<F32Bits> {
    match a {
        VertexAttribute::Float(f) => seq![f],
        VertexAttribute::Float2(f2) => seq![f2.x, f2.y],
        VertexAttribute::Float3(f3) => seq![f3.x, f3.y, f3.z],
        VertexAttribute::Float4(f4) => seq![f4.x, f4.y, f4.z, f4.w],
        VertexAttribute::Absent => seq![],
    }
}

/// The components of a sequence of attributes, one after the other.
pub open spec fn attributes_words(attributes: Seq<VertexAttribute>) -> Seq<F32Bits>
    decreases attributes.len(),
{
    if attributes.len() == 0 {
        seq![]
    } else {
        attributes_words(attributes.drop_last()) + attribute_words(attributes.last())
    }
}

/// The interleaved vertex data of a sequence of vertices.
pub open spec fn vertices_words(vertices: Seq<Vertex>) -> Seq<F32Bits>
    decreases vertices.len(),
{
    if vertices.len() == 0 {
        seq![]
    } else {
        vertices_words(vertices.drop_last()) + attributes_words(vertices.last().attributes@)
    }
}

#[derive(Clone)]
pub struct Vertex {
    pub attributes: Vec<VertexAttribute>,
}

#[derive(Clone, Copy, PartialEq, Eq, Structural, Debug)]
pub struct VertexAttributesLayoutItem {
    pub count: u32,
    pub active: bool,
}

/// The attributes a vertex is made of; `size` is the number of components of a vertex.
#[derive(Clone)]
pub struct VertexAttributesLayout {
    pub size: i32,
    pub items: Vec<VertexAttributesLayoutItem>,
}

#[allow(unused)]
pub struct Triangle {
    vertex_1: Vertex,
    vertex_2: Vertex,
    vertex_3: Vertex,
}

/// The number of components an attribute holds: one to four floats, none
/// when absent.
pub open spec fn component_count(a: VertexAttribute) -> nat {
    match a {
        VertexAttribute::Float(_) => 1,
        VertexAttribute::Float2(_) => 2,
        VertexAttribute::Float3(_) => 3,
        VertexAttribute::Float4(_) => 4,
        VertexAttribute::Absent => 0,
    }
}

/// The number of components of a list of attributes.
pub open spec fn attributes_component_count(attributes: Seq<VertexAttribute>) -> nat
    decreases attributes.len(),
{
    if attributes.len() == 0 {
        0
    } else {
        attributes_component_count(attributes.drop_last()) + component_count(attributes.last())
    }
}

/// The number of components of all attributes of some vertices.
pub open spec fn vertices_component_count(vertices: Seq<Vertex>) -> nat
    decreases vertices.len(),
{
    if vertices.len() == 0 {
        0
    } else {
        vertices_component_count(vertices.drop_last()) + attributes_component_count(
            vertices.last().attributes@,
        )
    }
}

/// An attribute contributes exactly its components, in order: x, then y,
/// then z, then w, as many as it has.
pub proof fn law_attribute_components(a: VertexAttribute)
    ensures
        attribute_words(a).len() == component_count(a),
        a matches VertexAttribute::Float(f) ==> attribute_words(a)[0] == f,
        a matches VertexAttribute::Float2(v) ==> attribute_words(a)[0] == v.x && attribute_words(a)[1]
            == v.y,
        a matches VertexAttribute::Float3(v) ==> attribute_words(a)[0] == v.x && attribute_words(a)[1]
            == v.y && attribute_words(a)[2] == v.z,
        a matches VertexAttribute::Float4(v) ==> attribute_words(a)[0] == v.x && attribute_words(a)[1]
            == v.y && attribute_words(a)[2] == v.z && attribute_words(a)[3] == v.w,
{
}

proof fn lemma_attributes_words_len(attributes: Seq<VertexAttribute>)
    ensures
        attributes_words(attributes).len() == attributes_component_count(attributes),
    decreases attributes.len(),
{
    if attributes.len() > 0 {
        lemma_attributes_words_len(attributes.drop_last());
        law_attribute_components(attributes.last());
    }
}

/// The vertex data holds exactly the components of every attribute of every
/// vertex, no more and no fewer, and appending a vertex appends its
/// components after the data of the vertices before it.
pub proof fn law_vertex_data_layout(vertices: Seq<Vertex>, v: Vertex)
    ensures
        vertices_words(vertices).len() == vertices_component_count(vertices),
        vertices_words(vertices.push(v)).len() == vertices_words(vertices).len()
            + attributes_component_count(v.attributes@),
        forall|i: int|
            0 <= i < vertices_words(vertices).len() ==> vertices_words(vertices.push(v))[i]
                == vertices_words(vertices)[i],
    decreases vertices.len(),
{
    if vertices.len() > 0 {
        law_vertex_data_layout(vertices.drop_last(), vertices.last());
        lemma_attributes_words_len(vertices.last().attributes@);
    }
    lemma_attributes_words_len(v.attributes@);
    assert(vertices.push(v).drop_last() =~= vertices);
}

/// Appends the components of one attribute to `data`.
fn push_attribute_words(data: &mut Vec<F32Bits>, attr: &VertexAttribute)
    ensures
        final(data)@ == old(data)@ + attribute_words(*attr),
{
    match attr {
        VertexAttribute::Float(f) => data.push(*f),
        VertexAttribute::Float2(f2) => {
            data.push(f2.x);
            data.push(f2.y);
        },
        VertexAttribute::Float3(f3) => {
            data.push(f3.x);
            data.push(f3.y);
            data.push(f3.z);
        },
        VertexAttribute::Float4(f4) => {
            data.push(f4.x);
            data.push(f4.y);
            data.push(f4.z);
            data.push(f4.w);
        },
        VertexAttribute::Absent => {},
    }
    assert(final(data)@ =~= old(data)@ + attribute_words(*attr));
}

/// Appends the components of all attributes of a vertex to `data`.
fn push_vertex_words(data: &mut Vec<F32Bits>, attributes: &Vec<VertexAttribute>)
    ensures
        final(data)@ == old(data)@ + attributes_words(attributes@),
{
    let mut j: usize = 0;
    while j < attributes.len()
        invariant
            j <= attributes@.len(),
            data@ == old(data)@ + attributes_words(attributes@.take(j as int)),
        decreases attributes@.len() - j,
    {
        proof {
            assert(attributes@.take(j + 1).drop_last() =~= attributes@.take(j as int));
        }
        push_attribute_words(data, &attributes[j]);
        proof {
            assert(data@ =~= old(data)@ + attributes_words(attributes@.take(j + 1)));
        }
        j = j + 1;
    }
    proof {
        assert(attributes@.take(j as int) =~= attributes@);
    }
}

/// The interleaved data of `vertices`, as `f32` bits.
pub(crate) fn flatten_vertices(vertices: &Vec<Vertex>) -> (r: Vec<F32Bits>)
    ensures
        r@ == vertices_words(vertices@),
{
    let mut data: Vec<F32Bits> = Vec::new();
    let mut i: usize = 0;
    while i < vertices.len()
        invariant
            i <= vertices@.len(),
            data@ == vertices_words(vertices@.take(i as int)),
        decreases vertices@.len() - i,
    {
        proof {
            assert(vertices@.take(i + 1).drop_last() =~= vertices@.take(i as int));
        }
        push_vertex_words(&mut data, &vertices[i].attributes);
        i = i + 1;
    }
    proof {
        assert(vertices@.take(i as int) =~= vertices@);
    }
    data
}

/// The number of components of the active items.
pub open spec fn active_components(items: Seq<VertexAttributesLayoutItem>) -> int
    decreases items.len(),
{
    if items.len() == 0 {
        0
    } else {
        active_components(items.drop_last()) + if items.last().active {
            items.last().count as int
        } else {
            0
        }
    }
}

/// The attribute pointers a layout describes: the active items, numbered
/// from zero in order, each starting after the components of the active
/// items before it.
pub open spec fn layout_pointers(items: Seq<VertexAttributesLayoutItem>, vertex_size: i32) -> Seq<
    VertexAttributePointer,
>
    decreases items.len(),
{
    if items.len() == 0 {
        seq![]
    } else {
        let before = layout_pointers(items.drop_last(), vertex_size);
        if items.last().active {
            before.push(
                VertexAttributePointer {
                    index: before.len() as u32,
                    count: items.last().count as i32,
                    pointer_type: VertexAttributePointerType::Float,
                    vertex_size,
                    offset: active_components(items.drop_last()) as i32,
                },
            )
        } else {
            before
        }
    }
}

proof fn lemma_active_components_monotone(items: Seq<VertexAttributesLayoutItem>, i: int)
    requires
        0 <= i <= items.len(),
    ensures
        0 <= active_components(items.take(i)) <= active_components(items),
    decreases items.len() - i,
{
    if i < items.len() {
        lemma_active_components_monotone(items, i + 1);
        assert(items.take(i + 1).drop_last() =~= items.take(i));
    } else {
        assert(items.take(i) =~= items);
    }
    lemma_active_components_nonneg(items.take(i));
}

proof fn lemma_active_components_nonneg(items: Seq<VertexAttributesLayoutItem>)
    ensures
        0 <= active_components(items),
    decreases items.len(),
{
    if items.len() > 0 {
        lemma_active_components_nonneg(items.drop_last());
    }
}

impl VertexAttributesLayout {
    /// A copy of this layout.
    pub fn duplicate(&self) -> (r: Self)
        ensures
            r.size == self.size,
            r.items@ == self.items@,
    {
        let mut items: Vec<VertexAttributesLayoutItem> = Vec::new();
        let mut i: usize = 0;
        while i < self.items.len()
            invariant
                i <= self.items@.len(),
                items@ == self.items@.take(i as int),
            decreases self.items@.len() - i,
        {
            items.push(self.items[i]);
            proof {
                assert(items@ =~= self.items@.take(i + 1));
            }
            i = i + 1;
        }
        proof {
            assert(items@ =~= self.items@);
        }
        VertexAttributesLayout { size: self.size, items }
    }
    /// The attribute pointers to set up for a vertex array holding vertices of
    /// this layout: one per active item, numbered in order, each a float
    /// attribute starting after the components of the active items before it.
    pub fn attribute_pointers(&self) -> (r: Vec<VertexAttributePointer>)
        requires
            self.items@.len() <= u32::MAX,
            active_components(self.items@) <= i32::MAX,
        ensures
            r@ == layout_pointers(self.items@, self.size),
    {
        let mut r: Vec<VertexAttributePointer> = Vec::new();
        let mut offset: i32 = 0;
        let mut index: u32 = 0;
        let mut i: usize = 0;
        while i < self.items.len()
            invariant
                i <= self.items@.len() <= u32::MAX,
                active_components(self.items@) <= i32::MAX,
                r@ == layout_pointers(self.items@.take(i as int), self.size),
                index as int == r@.len(),
                r@.len() <= i,
                offset as int == active_components(self.items@.take(i as int)),
            decreases self.items@.len() - i,
        {
            let item = self.items[i];
            proof {
                assert(self.items@.take(i + 1).drop_last() =~= self.items@.take(i as int));
                lemma_active_components_monotone(self.items@, i + 1);
                lemma_active_components_nonneg(self.items@.take(i as int));
            }
            if item.active {
                r.push(
                    VertexAttributePointer {
                        index,
                        count: item.count as i32,
                        pointer_type: VertexAttributePointerType::Float,
                        vertex_size: self.size,
                        offset,
                    },
                );
                index = index + 1;
                offset = offset + item.count as i32;
            }
            i = i + 1;
        }
        proof {
            assert(self.items@.take(i as int) =~= self.items@);
        }
        r
    }
}

/// The vertices and indices of a mesh primitive together with the
/// interleaved vertex data (as `f32` bits) that is uploaded to the GPU.
pub struct VertexCollection {
    layout: VertexAttributesLayout,
    vertices: Vec<Vertex>,
    indices: Vec<u32>,
    vertices_data: Vec<F32Bits>,
}

impl VertexCollection {
    #[verifier::type_invariant]
    spec fn data_matches_vertices(self) -> bool {
        self.vertices_data@ == vertices_words(self.vertices@)
    }

    pub closed spec fn spec_layout_size(&self) -> i32 {
        self.layout.size
    }

    pub closed spec fn spec_layout_items(&self) -> Seq<VertexAttributesLayoutItem> {
        self.layout.items@
    }

    pub closed spec fn spec_vertices(&self) -> Seq<Vertex> {
        self.vertices@
    }

    pub closed spec fn spec_indices(&self) -> Seq<u32> {
        self.indices@
    }

    /// Builds the collection and its interleaved vertex data: the components
    /// of every attribute of every vertex, in order.
    pub fn new(layout: VertexAttributesLayout, vertices: Vec<Vertex>, indices: Vec<u32>) -> (r:
        Self)
        ensures
            r.spec_layout_size() == layout.size,
            r.spec_layout_items() == layout.items@,
            r.spec_vertices() == vertices@,
            r.spec_indices() == indices@,
    {
        let vertices_data = flatten_vertices(&vertices);
        VertexCollection { layout, vertices, indices, vertices_data }
    }

    /// The interleaved vertex data.
    pub fn data_as_slice(&self) -> (r: &[F32Bits])
        ensures
            r@ == vertices_words(self.spec_vertices()),
    {
        proof {
            use_type_invariant(self);
        }
        self.vertices_data.as_slice()
    }

    /// The interleaved vertex data as the bytes uploaded to a vertex buffer.
    pub fn data_as_bytes(&self) -> (r: Vec<u8>)
        ensures
            r@ == words_le_bytes(vertices_words(self.spec_vertices())) || r@ == words_be_bytes(
                vertices_words(self.spec_vertices()),
            ),
    {
        proof {
            use_type_invariant(self);
        }
        words_as_bytes(self.vertices_data.as_slice())
    }

    pub fn indices_as_slice(&self) -> (r: &[u32])
        ensures
            r@ == self.spec_indices(),
    {
        self.indices.as_slice()
    }

    /// The indices as the bytes uploaded to an index buffer.
    pub fn indices_as_bytes(&self) -> (r: Vec<u8>)
        ensures
            r@ == words_le_bytes(self.spec_indices()) || r@ == words_be_bytes(self.spec_indices()),
    {
        words_as_bytes(self.indices.as_slice())
    }

    pub fn vertex_size(&self) -> (r: i32)
        ensures
            r == self.spec_layout_size(),
    {
        self.layout.size
    }

    pub fn get_layout_items(&self) -> (r: &[VertexAttributesLayoutItem])
        ensures
            r@ == self.spec_layout_items(),
    {
        self.layout.items.as_slice()
    }

    /// The number of indices (truncated to an `i32`, as the draw call takes it).
    pub fn get_indices_count(&self) -> (r: i32)
        ensures
            r == self.spec_indices().len() as i32,
    {
        self.indices.len() as i32
    }

    pub fn clone_layout(&self) -> (r: VertexAttributesLayout)
        ensures
            r.size == self.spec_layout_size(),
            r.items@ == self.spec_layout_items(),
    {
        self.layout.duplicate()
    }

    pub fn take_layout(self) -> (r: VertexAttributesLayout)
        ensures
            r.size == self.spec_layout_size(),
            r.items@ == self.spec_layout_items(),
    {
        self.layout
    }
}

proof fn lemma_vertices_words_by_attributes(a: Seq<Vertex>, b: Seq<Vertex>)
    requires
        a.len() == b.len(),
        forall|k: int| 0 <= k < a.len() ==> (#[trigger] a[k]).attributes@ == b[k].attributes@,
    ensures
        vertices_words(a) == vertices_words(b),
    decreases a.len(),
{
    if a.len() > 0 {
        lemma_vertices_words_by_attributes(a.drop_last(), b.drop_last());
        assert(a.last().attributes@ == b.last().attributes@);
    }
}

impl Clone for VertexCollection {
    /// A copy with the same layout, vertices, indices and vertex data.
    fn clone(&self) -> (r: Self)
        ensures
            r.spec_layout_size() == self.spec_layout_size(),
            r.spec_layout_items() == self.spec_layout_items(),
            r.spec_indices() == self.spec_indices(),
            r.spec_vertices().len() == self.spec_vertices().len(),
            forall|k: int|
                0 <= k < self.spec_vertices().len() ==> (#[trigger] r.spec_vertices()[k]).attributes@
                    == self.spec_vertices()[k].attributes@,
            vertices_words(r.spec_vertices()) == vertices_words(self.spec_vertices()),
    {
        let mut vertices: Vec<Vertex> = Vec::new();
        let mut i: usize = 0;
        while i < self.vertices.len()
            invariant
                i <= self.vertices@.len(),
                vertices@.len() == i,
                forall|k: int|
                    0 <= k < i ==> (#[trigger] vertices@[k]).attributes@ == self.vertices@[k].attributes@,
            decreases self.vertices@.len() - i,
        {
            let attributes = self.vertices[i].attributes.clone();
            proof {
                assert(attributes@ =~= self.vertices@[i as int].attributes@);
            }
            vertices.push(Vertex { attributes });
            i = i + 1;
        }
        let indices = self.indices.clone();
        proof {
            assert(indices@ =~= self.indices@);
            lemma_vertices_words_by_attributes(vertices@, self.vertices@);
        }
        VertexCollection::new(self.layout.duplicate(), vertices, indices)
    }
}

/// Something the renderer can draw.
pub enum RenderableObject {
    Elements(ElementsRenderableObject),
    InstanceElements(InstanceElementsRenderableObject),
}

/// Indexed geometry drawn with one draw-elements call.
pub struct ElementsRenderableObject {
    pub layout: VertexAttributesLayout,
    pub voa: VertexArrayObject,
    pub indices_count: u32,
}

impl ElementsRenderableObject {
    /// The renderable for a mesh primitive of a template, drawing from `voa`,
    /// the vertex array its vertices and indices were uploaded to.
    pub fn from_mesh_primitive(primitive: &MeshPrimitiveTemplate, voa: VertexArrayObject) -> (r:
        Self)
        ensures
            r.layout.size == primitive.vertices.spec_layout_size(),
            r.layout.items@ == primitive.vertices.spec_layout_items(),
            r.voa == voa,
            r.indices_count == primitive.vertices.spec_indices().len() as u32,
    {
        let indices_count = primitive.vertices.indices_as_slice().len() as u32;
        ElementsRenderableObject {
            layout: primitive.vertices.clone_layout(),
            voa,
            indices_count,
        }
    }
}

/// Instanced indexed geometry.
#[allow(unused)]
pub struct InstanceElementsRenderableObject {
    layout: VertexAttributesLayout,
    vertex_buffer: BufferObject,
    index_buffer: BufferObject,
    voa: VertexArrayObject,
    vertices: Vec<Vertex>,
    indices: Vec<u32>,
}

impl InstanceElementsRenderableObject {
    pub closed spec fn spec_voa(&self) -> VertexArrayObject {
        self.voa
    }

    /// The vertex array this object draws from.
    pub fn voa(&self) -> (r: VertexArrayObject)
        ensures
            r == self.spec_voa(),
    {
        self.voa
    }
}

impl RenderableObject {
    /// The vertex array the object draws from, which is what freeing it releases.
    pub fn voa(&self) -> (r: VertexArrayObject)
        ensures
            r == match self {
                RenderableObject::Elements(es) => es.voa,
                RenderableObject::InstanceElements(ies) => ies.spec_voa(),
            },
    {
        match self {
            RenderableObject::Elements(es) => es.voa,
            RenderableObject::InstanceElements(ies) => ies.voa(),
        }
    }
}

} // verus!
