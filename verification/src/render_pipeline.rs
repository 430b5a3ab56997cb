use crate::id_map::map_keys;
use crate::geometry::RenderableObject;
use crate::gpu_objects::{Shader, VertexArrayObject};
use crate::materials::Material;
use crate::maths::{F32Bits, F32_ZERO_BITS};
use crate::resources::{MaterialInternalId, ResourceManager};
use crate::scenes::{node_is_active, NodeId, SceneGraphNode, SceneInstance, TransformInternalId};
use std::collections::HashMap;
use vstd::prelude::*;

verus! {

broadcast use vstd::std_specs::hash::group_hash_axioms;

/// One thing to draw: a renderable object of a node, with its transform and
/// its distance to the camera (`f32` bits).
#[derive(Clone, Copy, PartialEq, Eq, Structural, Debug)]
pub struct RenderBatchItem {
    pub renderable_object_internal_id: u32,
    pub transform_internal_id: TransformInternalId,
    pub node_id: NodeId,
    pub distance_to_camera: F32Bits,
}

/// Opaque items drawn with one material.
pub struct OpaqueRenderBatch {
    pub material_internal_id: u32,
    pub items: Vec<RenderBatchItem>,
}

/// Transparent items drawn with one material.
pub struct TransparentRenderBatch {
    pub material_internal_id: u32,
    pub items: Vec<RenderBatchItem>,
}

/// How the pipeline is set up.
#[derive(Clone, Copy, PartialEq, Eq, Structural, Debug)]
pub struct RenderPipelineConfiguration {
    pub shadows_enabled: bool,
}

/// The batches the scene is drawn in, keyed by material id.
pub struct RenderPipelineContext {
    opaque_primitive_batches: HashMap<MaterialInternalId, OpaqueRenderBatch>,
    transparent_primitive_batches: HashMap<MaterialInternalId, TransparentRenderBatch>,
}

/// A batch as the contracts see it: its material id and its items.
pub type BatchView = (u32, Seq<RenderBatchItem>);

/// The batches after `item` was added under `key`: appended to the batch of
/// `key`, or in a new batch of its own.
pub open spec fn batches_with(batches: Map<u32, BatchView>, key: u32, item: RenderBatchItem) -> Map<
    u32,
    BatchView,
> {
    if batches.contains_key(key) {
        batches.insert(key, (batches[key].0, batches[key].1.push(item)))
    } else {
        batches.insert(key, (key, seq![item]))
    }
}

/// The item a renderable of a node becomes.
pub open spec fn node_item(node: SceneGraphNode, ro_id: u32) -> RenderBatchItem {
    RenderBatchItem {
        renderable_object_internal_id: ro_id,
        transform_internal_id: node.transform_internal_id,
        node_id: node.id,
        distance_to_camera: F32_ZERO_BITS,
    }
}

/// The items of the renderables of `node` that fall into the transparent
/// batches (`transparent`) or the opaque ones: those whose material, looked
/// up by the renderable object's id, exists and has that transparency.
#[verifier::opaque]
pub open spec fn node_items(
    node: SceneGraphNode,
    renderables: Seq<crate::scenes::SceneGraphNodeRenderable>,
    materials: Seq<crate::materials::Material>,
    transparent: bool,
) -> Seq<RenderBatchItem>
    decreases renderables.len(),
{
    if renderables.len() == 0 {
        seq![]
    } else {
        let before = node_items(node, renderables.drop_last(), materials, transparent);
        let ro_id = renderables.last().renderable_object_internal_id;
        if ro_id < materials.len() && materials[ro_id as int].spec_is_transparent() == transparent {
            before.push(node_item(node, ro_id))
        } else {
            before
        }
    }
}

/// The items of the active nodes among `nodes` (activity judged in the whole
/// graph `graph`), node after node.
#[verifier::opaque]
pub open spec fn scene_items(
    graph: Seq<SceneGraphNode>,
    nodes: Seq<SceneGraphNode>,
    materials: Seq<crate::materials::Material>,
    transparent: bool,
) -> Seq<RenderBatchItem>
    decreases nodes.len(),
{
    if nodes.len() == 0 {
        seq![]
    } else {
        let before = scene_items(graph, nodes.drop_last(), materials, transparent);
        if node_is_active(graph, nodes.last().id) {
            before + node_items(nodes.last(), nodes.last().renderables@, materials, transparent)
        } else {
            before
        }
    }
}

/// The batches that adding `items` in order to `batches` gives, each item
/// keyed by its renderable object id.
#[verifier::opaque]
pub open spec fn batches_of(batches: Map<u32, BatchView>, items: Seq<RenderBatchItem>) -> Map<
    u32,
    BatchView,
>
    decreases items.len(),
{
    if items.len() == 0 {
        batches
    } else {
        let before = batches_of(batches, items.drop_last());
        batches_with(before, items.last().renderable_object_internal_id, items.last())
    }
}

proof fn lemma_batches_of_append(
    batches: Map<u32, BatchView>,
    items: Seq<RenderBatchItem>,
    more: Seq<RenderBatchItem>,
)
    ensures
        batches_of(batches, items + more) == batches_of(batches_of(batches, items), more),
    decreases more.len(),
{
    reveal(batches_of);
    if more.len() == 0 {
        assert(items + more =~= items);
    } else {
        lemma_batches_of_append(batches, items, more.drop_last());
        assert((items + more).drop_last() =~= items + more.drop_last());
    }
}

proof fn lemma_batches_of_push(batches: Map<u32, BatchView>, items: Seq<RenderBatchItem>, item: RenderBatchItem)
    ensures
        batches_of(batches, items.push(item)) == batches_with(
            batches_of(batches, items),
            item.renderable_object_internal_id,
            item,
        ),
{
    reveal(batches_of);
    assert(items.push(item).drop_last() =~= items);
}

proof fn lemma_node_items_step(
    node: SceneGraphNode,
    rends: Seq<crate::scenes::SceneGraphNodeRenderable>,
    j: int,
    materials: Seq<crate::materials::Material>,
    transparent: bool,
)
    requires
        0 <= j < rends.len(),
    ensures
        node_items(node, rends.take(j + 1), materials, transparent) == ({
            let ro_id = rends[j].renderable_object_internal_id;
            let before = node_items(node, rends.take(j), materials, transparent);
            if ro_id < materials.len() && materials[ro_id as int].spec_is_transparent() == transparent {
                before.push(node_item(node, ro_id))
            } else {
                before
            }
        }),
{
    reveal(node_items);
    assert(rends.take(j + 1).drop_last() =~= rends.take(j));
}

proof fn lemma_scene_items_step(
    graph: Seq<SceneGraphNode>,
    i: int,
    materials: Seq<crate::materials::Material>,
    transparent: bool,
)
    requires
        0 <= i < graph.len(),
    ensures
        scene_items(graph, graph.take(i + 1), materials, transparent) == if node_is_active(
            graph,
            graph[i].id,
        ) {
            scene_items(graph, graph.take(i), materials, transparent) + node_items(
                graph[i],
                graph[i].renderables@,
                materials,
                transparent,
            )
        } else {
            scene_items(graph, graph.take(i), materials, transparent)
        },
{
    reveal(scene_items);
    assert(graph.take(i + 1).drop_last() =~= graph.take(i));
}

/// Whether `b` are the bits of a NaN.
pub open spec fn f32_is_nan(b: F32Bits) -> bool {
    (b & 0x7f80_0000u32) == 0x7f80_0000u32 && (b & 0x007f_ffffu32) != 0
}

/// A number that orders the floats with these bits as `<` does, NaN aside:
/// both zeros get the same number.
pub open spec fn f32_order_key(b: F32Bits) -> int {
    if b >= 0x8000_0000u32 {
        0x1_0000_0000 - b
    } else {
        0x8000_0000 + b
    }
}

/// `a < b` on the floats with bits `a` and `b`: false where either is NaN.
pub open spec fn f32_lt(a: F32Bits, b: F32Bits) -> bool {
    !f32_is_nan(a) && !f32_is_nan(b) && f32_order_key(a) < f32_order_key(b)
}

/// `<` on float bits is a strict order that leaves NaN unordered and treats
/// the two zeros as equal, as the sort's comparison needs.
pub proof fn law_f32_lt_strict_order(a: F32Bits, b: F32Bits, c: F32Bits)
    ensures
        !f32_lt(a, a),
        f32_lt(a, b) ==> !f32_lt(b, a),
        f32_lt(a, b) && f32_lt(b, c) ==> f32_lt(a, c),
        f32_is_nan(a) ==> !f32_lt(a, b) && !f32_lt(b, a),
        !f32_lt(0x8000_0000u32, 0u32) && !f32_lt(0u32, 0x8000_0000u32),
        !f32_is_nan(a) && !f32_is_nan(b) ==> f32_lt(a, b) || f32_lt(b, a) || f32_order_key(a)
            == f32_order_key(b),
{
    assert(!f32_is_nan(0x8000_0000u32)) by (bit_vector);
    assert(!f32_is_nan(0u32)) by (bit_vector);
}

/// `a < b` on the floats with bits `a` and `b`.
pub fn f32_bits_lt(a: F32Bits, b: F32Bits) -> (r: bool)
    ensures
        r == f32_lt(a, b),
{
    let a_nan = (a & 0x7f80_0000u32) == 0x7f80_0000u32 && (a & 0x007f_ffffu32) != 0;
    let b_nan = (b & 0x7f80_0000u32) == 0x7f80_0000u32 && (b & 0x007f_ffffu32) != 0;
    if a_nan || b_nan {
        return false;
    }
    let ka: u64 = if a >= 0x8000_0000u32 {
        0x1_0000_0000u64 - a as u64
    } else {
        0x8000_0000u64 + a as u64
    };
    let kb: u64 = if b >= 0x8000_0000u32 {
        0x1_0000_0000u64 - b as u64
    } else {
        0x8000_0000u64 + b as u64
    };
    ka < kb
}

/// Whether `a` is drawn before `b`: nearer first (front to back), or, with
/// `back_to_front`, farther first. Items at the same distance, and NaN
/// distances, go in neither order.
pub open spec fn draws_before(a: RenderBatchItem, b: RenderBatchItem, back_to_front: bool) -> bool {
    if back_to_front {
        f32_lt(b.distance_to_camera, a.distance_to_camera)
    } else {
        f32_lt(a.distance_to_camera, b.distance_to_camera)
    }
}

/// The position of an item in drawing order, for items of NaN-free distance.
pub open spec fn draw_key(a: RenderBatchItem, back_to_front: bool) -> int {
    if back_to_front {
        -f32_order_key(a.distance_to_camera)
    } else {
        f32_order_key(a.distance_to_camera)
    }
}

/// No item has a NaN distance.
pub open spec fn nan_free(items: Seq<RenderBatchItem>) -> bool {
    forall|k: int| 0 <= k < items.len() ==> !f32_is_nan(#[trigger] items[k].distance_to_camera)
}

/// Items `k` and `l` of `s` (which came from positions `perm[k]` and
/// `perm[l]`) stand in drawing order, ties in their first order.
pub open spec fn in_draw_order(s: Seq<RenderBatchItem>, perm: Seq<int>, k: int, l: int, back_to_front: bool) -> bool {
    draw_key(s[k], back_to_front) < draw_key(s[l], back_to_front) || (draw_key(s[k], back_to_front)
        == draw_key(s[l], back_to_front) && perm[k] < perm[l])
}

/// `new` holds the items of `old` moved by `perm` (`new[k] == old[perm[k]]`),
/// and, where no distance is NaN, in drawing order with ties kept in their
/// first order: the stable sort of `old` by distance.
pub open spec fn stably_sorted_by(
    old: Seq<RenderBatchItem>,
    new: Seq<RenderBatchItem>,
    perm: Seq<int>,
    back_to_front: bool,
) -> bool {
    &&& new.len() == old.len()
    &&& perm.len() == old.len()
    &&& forall|k: int| 0 <= k < new.len() ==> 0 <= #[trigger] perm[k] < old.len() && new[k] == old[perm[k]]
    &&& forall|k: int, l: int| 0 <= k < l < new.len() ==> #[trigger] perm[k] != #[trigger] perm[l]
    &&& nan_free(old) ==> forall|k: int, l: int|
        0 <= k < l < new.len() ==> #[trigger] in_draw_order(new, perm, k, l, back_to_front)
}

/// `new` is `old` stably sorted into drawing order (see `stably_sorted_by`).
pub open spec fn is_draw_sorted(old: Seq<RenderBatchItem>, new: Seq<RenderBatchItem>, back_to_front: bool) -> bool {
    exists|perm: Seq<int>| stably_sorted_by(old, new, perm, back_to_front)
}

/// Whether `a` is drawn before `b`.
fn draws_before_exec(a: &RenderBatchItem, b: &RenderBatchItem, back_to_front: bool) -> (r: bool)
    ensures
        r == draws_before(*a, *b, back_to_front),
{
    if back_to_front {
        f32_bits_lt(b.distance_to_camera, a.distance_to_camera)
    } else {
        f32_bits_lt(a.distance_to_camera, b.distance_to_camera)
    }
}

/// Sorts `items` into drawing order, stably (insertion sort).
fn sort_items(items: &mut Vec<RenderBatchItem>, back_to_front: bool)
    ensures
        is_draw_sorted(old(items)@, final(items)@, back_to_front),
{
    let ghost o = items@;
    let n = items.len();
    let ghost mut perm: Seq<int> = Seq::new(n as nat, |k: int| k);
    if n == 0 {
        assert(stably_sorted_by(o, items@, perm, back_to_front));
        return;
    }
    let mut i: usize = 1;
    while i < n
        invariant
            n == o.len(),
            1 <= i <= n,
            items@.len() == n,
            perm.len() == n,
            forall|k: int| 0 <= k < n ==> 0 <= #[trigger] perm[k] < n && items@[k] == o[perm[k]],
            forall|k: int, l: int| 0 <= k < l < n ==> #[trigger] perm[k] != #[trigger] perm[l],
            forall|k: int| i <= k < n ==> #[trigger] perm[k] == k,
            forall|k: int| 0 <= k < i ==> #[trigger] perm[k] < i,
            nan_free(o) ==> forall|k: int, l: int|
                0 <= k < l < i ==> #[trigger] in_draw_order(items@, perm, k, l, back_to_front),
        decreases n - i,
    {
        let mut p: usize = i;
        proof {
            assert(perm[i as int] == i);
        }
        loop
            invariant
                n == o.len(),
                1 <= i < n,
                p <= i,
                items@.len() == n,
                perm.len() == n,
                items@[p as int] == o[i as int],
                perm[p as int] == i,
                forall|k: int| 0 <= k < n ==> 0 <= #[trigger] perm[k] < n && items@[k] == o[perm[k]],
                forall|k: int, l: int| 0 <= k < l < n ==> #[trigger] perm[k] != #[trigger] perm[l],
                forall|k: int| i < k < n ==> #[trigger] perm[k] == k,
                forall|k: int| 0 <= k <= i && k != p ==> #[trigger] perm[k] < i,
                nan_free(o) ==> forall|k: int, l: int|
                    0 <= k < l <= i && k != p && l != p ==> #[trigger] in_draw_order(
                        items@,
                        perm,
                        k,
                        l,
                        back_to_front,
                    ),
                nan_free(o) ==> forall|l: int|
                    p < l <= i ==> draw_key(items@[p as int], back_to_front) < draw_key(
                        #[trigger] items@[l],
                        back_to_front,
                    ),
            ensures
                nan_free(o) ==> forall|k: int, l: int|
                    0 <= k < l <= i ==> #[trigger] in_draw_order(items@, perm, k, l, back_to_front),
                items@.len() == n,
                perm.len() == n,
                forall|k: int| 0 <= k < n ==> 0 <= #[trigger] perm[k] < n && items@[k] == o[perm[k]],
                forall|k: int, l: int| 0 <= k < l < n ==> #[trigger] perm[k] != #[trigger] perm[l],
                forall|k: int| i < k < n ==> #[trigger] perm[k] == k,
                forall|k: int| 0 <= k <= i ==> #[trigger] perm[k] <= i,
            decreases p,
        {
            if p == 0 {
                break;
            }
            let x = items[p];
            let y = items[p - 1];
            if !draws_before_exec(&x, &y, back_to_front) {
                proof {
                    if nan_free(o) {
                        assert(!f32_is_nan(o[perm[p as int]].distance_to_camera));
                        assert(!f32_is_nan(o[perm[p - 1]].distance_to_camera));
                        assert(draw_key(y, back_to_front) <= draw_key(x, back_to_front));
                        assert forall|k: int, l: int| 0 <= k < l <= i implies #[trigger] in_draw_order(
                            items@,
                            perm,
                            k,
                            l,
                            back_to_front,
                        ) by {
                            if l == p {
                                if k < p - 1 {
                                    assert(in_draw_order(items@, perm, k, p - 1, back_to_front));
                                }
                            } else if k == p {
                                assert(draw_key(items@[p as int], back_to_front) < draw_key(items@[l], back_to_front));
                            }
                        }
                    }
                }
                break;
            }
            let ghost old_items = items@;
            items[p] = y;
            items[p - 1] = x;
            proof {
                let old_perm = perm;
                perm = perm.update(p as int, old_perm[p - 1]).update(p - 1, old_perm[p as int]);
                assert(items@ == old_items.update(p as int, y).update(p - 1, x));
                if nan_free(o) {
                    assert(!f32_is_nan(o[old_perm[p as int]].distance_to_camera));
                    assert(!f32_is_nan(o[old_perm[p - 1]].distance_to_camera));
                    let q = (p - 1) as int;
                    assert forall|k: int, l: int|
                        0 <= k < l <= i && k != q && l != q implies #[trigger] in_draw_order(
                        items@,
                        perm,
                        k,
                        l,
                        back_to_front,
                    ) by {
                        if l == p {
                            assert(in_draw_order(old_items, old_perm, k, q, back_to_front));
                        } else if k == p {
                            assert(in_draw_order(old_items, old_perm, q, l, back_to_front));
                        } else {
                            assert(in_draw_order(old_items, old_perm, k, l, back_to_front));
                        }
                    }
                    assert forall|l: int| q < l <= i implies draw_key(items@[q], back_to_front) < draw_key(
                        #[trigger] items@[l],
                        back_to_front,
                    ) by {
                        if l > p {
                            assert(draw_key(old_items[p as int], back_to_front) < draw_key(old_items[l], back_to_front));
                        }
                    }
                }
            }
            p = p - 1;
        }
        i = i + 1;
    }
    assert(stably_sorted_by(o, items@, perm, back_to_front));
}

/// One draw of the opaque pass: bind `voa`, set the model matrix and draw
/// `indices_count` indices as triangles.
#[derive(Clone, Copy, PartialEq, Eq, Structural, Debug)]
pub struct ElementsDraw {
    pub voa: VertexArrayObject,
    pub indices_count: u32,
}

/// The opaque pass's work for one batch: use `shader`, set the view and
/// projection matrices, then make `draws` in order.
pub struct ShaderPass {
    pub material_internal_id: u32,
    pub shader: Shader,
    pub draws: Vec<ElementsDraw>,
}

impl View for ShaderPass {
    type V = (u32, Shader, Seq<ElementsDraw>);

    open spec fn view(&self) -> (u32, Shader, Seq<ElementsDraw>) {
        (self.material_internal_id, self.shader, self.draws@)
    }
}

/// The draws for `items`: one for each item whose renderable object exists
/// and is an elements object; instanced objects are not drawn.
pub open spec fn item_draws(items: Seq<RenderBatchItem>, objects: Seq<RenderableObject>) -> Seq<
    ElementsDraw,
>
    decreases items.len(),
{
    if items.len() == 0 {
        seq![]
    } else {
        let before = item_draws(items.drop_last(), objects);
        let id = items.last().renderable_object_internal_id;
        if id < objects.len() && objects[id as int] is Elements {
            before.push(
                ElementsDraw {
                    voa: objects[id as int]->Elements_0.voa,
                    indices_count: objects[id as int]->Elements_0.indices_count,
                },
            )
        } else {
            before
        }
    }
}

/// The shader a batch keyed `key` is drawn with: that of the basic material
/// with internal id `key`, where the material and its shader exist.
pub open spec fn batch_shader(key: u32, materials: Seq<Material>, shaders: Seq<Shader>) -> Option<
    Shader,
> {
    if key < materials.len() {
        match materials[key as int] {
            Material::Basic(m) => if m.shader_internal_id < shaders.len() {
                Some(shaders[m.shader_internal_id as int])
            } else {
                None
            },
            Material::Unlit(_) => None,
        }
    } else {
        None
    }
}

/// The passes for the batches under `keys`, in that order: one for each
/// batch that has a shader.
pub open spec fn opaque_passes(
    keys: Seq<u32>,
    batches: Map<u32, BatchView>,
    materials: Seq<Material>,
    shaders: Seq<Shader>,
    objects: Seq<RenderableObject>,
) -> Seq<(u32, Shader, Seq<ElementsDraw>)>
    decreases keys.len(),
{
    if keys.len() == 0 {
        seq![]
    } else {
        let before = opaque_passes(keys.drop_last(), batches, materials, shaders, objects);
        let k = keys.last();
        match batch_shader(k, materials, shaders) {
            Some(sh) => before.push((k, sh, item_draws(batches[k].1, objects))),
            None => before,
        }
    }
}

/// Whether `passes` are, one for one, the pass values `expected`.
pub open spec fn passes_are(passes: Seq<ShaderPass>, expected: Seq<(u32, Shader, Seq<ElementsDraw>)>) -> bool {
    &&& passes.len() == expected.len()
    &&& forall|i: int| 0 <= i < passes.len() ==> #[trigger] passes[i]@ == expected[i]
}

/// The draws for `items`.
fn draws_for_items(items: &Vec<RenderBatchItem>, resource_manager: &ResourceManager) -> (r: Vec<ElementsDraw>)
    ensures
        r@ == item_draws(items@, resource_manager.spec_renderable_objects()),
{
    let ghost objects = resource_manager.spec_renderable_objects();
    let mut r: Vec<ElementsDraw> = Vec::new();
    let mut j: usize = 0;
    proof {
        assert(items@.take(0) =~= Seq::<RenderBatchItem>::empty());
    }
    while j < items.len()
        invariant
            objects == resource_manager.spec_renderable_objects(),
            j <= items@.len(),
            r@ == item_draws(items@.take(j as int), objects),
        decreases items@.len() - j,
    {
        proof {
            assert(items@.take(j + 1).drop_last() =~= items@.take(j as int));
        }
        match resource_manager.get_renderable_object(&items[j].renderable_object_internal_id) {
            Some(RenderableObject::Elements(ero)) => {
                r.push(ElementsDraw { voa: ero.voa, indices_count: ero.indices_count });
            },
            _ => {},
        }
        j = j + 1;
    }
    proof {
        assert(items@.take(items@.len() as int) =~= items@);
    }
    r
}

/// The items keyed `key` among `items`, in their order.
pub open spec fn items_keyed(items: Seq<RenderBatchItem>, key: u32) -> Seq<RenderBatchItem>
    decreases items.len(),
{
    if items.len() == 0 {
        seq![]
    } else {
        let before = items_keyed(items.drop_last(), key);
        if items.last().renderable_object_internal_id == key {
            before.push(items.last())
        } else {
            before
        }
    }
}

/// Batching loses no item and mixes no keys: the batches built from `items`
/// are one for each renderable object id that occurs among them, and each
/// holds that id as its material id and exactly the items with that id, in
/// their order.
pub proof fn law_batches_partition_items(items: Seq<RenderBatchItem>)
    ensures
        forall|k: u32|
            #![trigger batches_of(Map::empty(), items).contains_key(k)]
            batches_of(Map::empty(), items).contains_key(k) <==> items_keyed(items, k).len() > 0,
        forall|k: u32|
            #![trigger batches_of(Map::empty(), items)[k]]
            batches_of(Map::empty(), items).contains_key(k) ==> batches_of(Map::empty(), items)[k] == (
            k,
            items_keyed(items, k),
        ),
    decreases items.len(),
{
    reveal(batches_of);
    if items.len() > 0 {
        let rest = items.drop_last();
        let it = items.last();
        law_batches_partition_items(rest);
        let before = batches_of(Map::empty(), rest);
        assert(batches_of(Map::empty(), items) == batches_with(before, it.renderable_object_internal_id, it));
        assert forall|k: u32| #[trigger] batches_of(Map::empty(), items).contains_key(k) <==> items_keyed(items, k).len() > 0 by {
            assert(before.contains_key(k) <==> items_keyed(rest, k).len() > 0);
        }
        assert forall|k: u32| #[trigger] batches_of(Map::empty(), items).contains_key(k) implies batches_of(Map::empty(), items)[k] == (k, items_keyed(items, k)) by {
            if k != it.renderable_object_internal_id {
                assert(before.contains_key(k));
            } else if before.contains_key(k) {
                assert(before[k] == (k, items_keyed(rest, k)));
            } else {
                assert(items_keyed(rest, k).len() == 0);
                assert(items_keyed(rest, k) =~= Seq::<RenderBatchItem>::empty());
                assert(items_keyed(items, k) =~= seq![it]);
            }
        }
    }
}

proof fn lemma_node_items_transparency(
    node: SceneGraphNode,
    renderables: Seq<crate::scenes::SceneGraphNodeRenderable>,
    materials: Seq<Material>,
    transparent: bool,
)
    ensures
        forall|i: int|
            0 <= i < node_items(node, renderables, materials, transparent).len() ==> {
                let id = (#[trigger] node_items(node, renderables, materials, transparent)[i]).renderable_object_internal_id;
                id < materials.len() && materials[id as int].spec_is_transparent() == transparent
            },
    decreases renderables.len(),
{
    reveal(node_items);
    if renderables.len() > 0 {
        lemma_node_items_transparency(node, renderables.drop_last(), materials, transparent);
        let before = node_items(node, renderables.drop_last(), materials, transparent);
        let all = node_items(node, renderables, materials, transparent);
        assert forall|i: int| 0 <= i < all.len() implies {
            let id = (#[trigger] all[i]).renderable_object_internal_id;
            id < materials.len() && materials[id as int].spec_is_transparent() == transparent
        } by {
            if i < before.len() {
                assert(all[i] == before[i]);
            }
        }
    }
}

/// An item lands in the transparent batches exactly when the material found
/// under its renderable object's id is transparent: each item built for one
/// side has a material, and that material's transparency is the side's.
pub proof fn law_scene_items_match_transparency(
    graph: Seq<SceneGraphNode>,
    nodes: Seq<SceneGraphNode>,
    materials: Seq<Material>,
    transparent: bool,
)
    ensures
        forall|i: int|
            0 <= i < scene_items(graph, nodes, materials, transparent).len() ==> {
                let id = (#[trigger] scene_items(graph, nodes, materials, transparent)[i]).renderable_object_internal_id;
                id < materials.len() && materials[id as int].spec_is_transparent() == transparent
            },
    decreases nodes.len(),
{
    reveal(scene_items);
    if nodes.len() > 0 {
        law_scene_items_match_transparency(graph, nodes.drop_last(), materials, transparent);
        lemma_node_items_transparency(nodes.last(), nodes.last().renderables@, materials, transparent);
        let before = scene_items(graph, nodes.drop_last(), materials, transparent);
        let extra = node_items(nodes.last(), nodes.last().renderables@, materials, transparent);
        if node_is_active(graph, nodes.last().id) {
            assert forall|i: int| 0 <= i < (before + extra).len() implies {
                let id = (#[trigger] (before + extra)[i]).renderable_object_internal_id;
                id < materials.len() && materials[id as int].spec_is_transparent() == transparent
            } by {
                if i < before.len() {
                    assert((before + extra)[i] == before[i]);
                } else {
                    assert((before + extra)[i] == extra[i - before.len()]);
                }
            }
        }
    }
}

/// Where no distance is NaN, a draw-sorted batch keeps its length and every
/// item it holds comes from the batch before sorting, and no item is drawn
/// after one it should follow: opaque items nearest first, transparent ones
/// farthest first.
pub proof fn law_draw_sorted_order(
    old: Seq<RenderBatchItem>,
    new: Seq<RenderBatchItem>,
    back_to_front: bool,
)
    requires
        is_draw_sorted(old, new, back_to_front),
        nan_free(old),
    ensures
        new.len() == old.len(),
        forall|k: int| 0 <= k < new.len() ==> old.contains(#[trigger] new[k]),
        forall|k: int, l: int|
            0 <= k < l < new.len() ==> !draws_before(#[trigger] new[l], #[trigger] new[k], back_to_front),
{
    let perm = choose|perm: Seq<int>| stably_sorted_by(old, new, perm, back_to_front);
    assert forall|k: int| 0 <= k < new.len() implies old.contains(#[trigger] new[k]) by {
        assert(old[perm[k]] == new[k]);
    }
    assert forall|k: int, l: int| 0 <= k < l < new.len() implies !draws_before(
        #[trigger] new[l],
        #[trigger] new[k],
        back_to_front,
    ) by {
        assert(in_draw_order(new, perm, k, l, back_to_front));
        assert(!f32_is_nan(old[perm[k]].distance_to_camera));
        assert(!f32_is_nan(old[perm[l]].distance_to_camera));
    }
}

/// The renderable object ids of `renderables` under which no material
/// exists, in order: the renderables `build_batches` skips.
pub open spec fn unmatched_renderables(
    renderables: Seq<crate::scenes::SceneGraphNodeRenderable>,
    materials: Seq<Material>,
) -> Seq<u32>
    decreases renderables.len(),
{
    if renderables.len() == 0 {
        seq![]
    } else {
        let before = unmatched_renderables(renderables.drop_last(), materials);
        let id = renderables.last().renderable_object_internal_id;
        if id < materials.len() {
            before
        } else {
            before.push(id)
        }
    }
}

/// The unmatched renderable object ids of the active nodes among `nodes`
/// (activity judged in the whole graph `graph`), node after node.
pub open spec fn scene_unmatched(
    graph: Seq<SceneGraphNode>,
    nodes: Seq<SceneGraphNode>,
    materials: Seq<Material>,
) -> Seq<u32>
    decreases nodes.len(),
{
    if nodes.len() == 0 {
        seq![]
    } else {
        let before = scene_unmatched(graph, nodes.drop_last(), materials);
        if node_is_active(graph, nodes.last().id) {
            before + unmatched_renderables(nodes.last().renderables@, materials)
        } else {
            before
        }
    }
}

proof fn lemma_scene_unmatched_step(graph: Seq<SceneGraphNode>, i: int, materials: Seq<Material>)
    requires
        0 <= i < graph.len(),
    ensures
        scene_unmatched(graph, graph.take(i + 1), materials) == if node_is_active(graph, graph[i].id) {
            scene_unmatched(graph, graph.take(i), materials) + unmatched_renderables(
                graph[i].renderables@,
                materials,
            )
        } else {
            scene_unmatched(graph, graph.take(i), materials)
        },
{
    assert(graph.take(i + 1).drop_last() =~= graph.take(i));
    assert(graph.take(i + 1).last() == graph[i]);
}

/// Appends to `r` the ids of the renderables of `node` that have no material.
fn push_unmatched(r: &mut Vec<u32>, resource_manager: &ResourceManager, node: &SceneGraphNode)
    ensures
        final(r)@ == old(r)@ + unmatched_renderables(node.renderables@, resource_manager.spec_materials()),
{
    let ghost rends = node.renderables@;
    let ghost materials = resource_manager.spec_materials();
    let ghost start = r@;
    let mut j: usize = 0;
    proof {
        assert(rends.take(0) =~= Seq::<crate::scenes::SceneGraphNodeRenderable>::empty());
        assert(start + Seq::<u32>::empty() =~= start);
    }
    while j < node.renderables.len()
        invariant
            materials == resource_manager.spec_materials(),
            rends == node.renderables@,
            start == old(r)@,
            j <= rends.len(),
            r@ == start + unmatched_renderables(rends.take(j as int), materials),
        decreases rends.len() - j,
    {
        let id = node.renderables[j].renderable_object_internal_id;
        let ghost prev = unmatched_renderables(rends.take(j as int), materials);
        proof {
            assert(rends.take(j + 1).drop_last() =~= rends.take(j as int));
            assert(rends.take(j + 1).last() == rends[j as int]);
        }
        if resource_manager.get_material(&id).is_none() {
            r.push(id);
            proof {
                assert(start + prev.push(id) =~= (start + prev).push(id));
            }
        }
        j = j + 1;
    }
    proof {
        assert(rends.take(j as int) =~= rends);
    }
}

/// The renderable object ids, among the renderables of the active nodes of
/// `scene`, for which no material is found under that id: those that
/// `build_batches` leaves out, in the order it meets them, for the caller
/// to report.
pub fn renderables_without_material<C>(resource_manager: &ResourceManager, scene: &SceneInstance<C>) -> (r: Vec<u32>)
    ensures
        r@ == scene_unmatched(scene.graph.nodes@, scene.graph.nodes@, resource_manager.spec_materials()),
{
    let ghost graph = scene.graph.nodes@;
    let ghost materials = resource_manager.spec_materials();
    let mut r: Vec<u32> = Vec::new();
    let mut i: usize = 0;
    proof {
        assert(graph.take(0) =~= Seq::<SceneGraphNode>::empty());
        assert(scene_unmatched(graph, graph.take(0), materials) =~= Seq::<u32>::empty());
    }
    while i < scene.graph.nodes.len()
        invariant
            graph == scene.graph.nodes@,
            materials == resource_manager.spec_materials(),
            i <= graph.len(),
            r@ == scene_unmatched(graph, graph.take(i as int), materials),
        decreases graph.len() - i,
    {
        let node = &scene.graph.nodes[i];
        proof {
            lemma_scene_unmatched_step(graph, i as int, materials);
        }
        if scene.graph.is_active(node.id) {
            push_unmatched(&mut r, resource_manager, node);
        }
        i = i + 1;
    }
    assert(graph.take(graph.len() as int) =~= graph);
    r
}

/// The opaque pass uses, for each batch, the shader of that batch's own
/// basic material, found by the material's shader id (not by the batch key),
/// and draws that batch's items; every batch whose material is basic and
/// whose shader exists gets a pass.
pub proof fn law_passes_use_their_material_shader(
    keys: Seq<u32>,
    batches: Map<u32, BatchView>,
    materials: Seq<Material>,
    shaders: Seq<Shader>,
    objects: Seq<RenderableObject>,
)
    ensures
        forall|i: int|
            0 <= i < opaque_passes(keys, batches, materials, shaders, objects).len() ==> {
                let pass = #[trigger] opaque_passes(keys, batches, materials, shaders, objects)[i];
                &&& keys.contains(pass.0)
                &&& pass.0 < materials.len()
                &&& materials[pass.0 as int] matches Material::Basic(m) && m.shader_internal_id
                    < shaders.len() && pass.1 == shaders[m.shader_internal_id as int]
                &&& pass.2 == item_draws(batches[pass.0].1, objects)
            },
        forall|j: int|
            0 <= j < keys.len() && keys[j] < materials.len() && (materials[keys[j] as int] matches Material::Basic(
                m,
            ) && m.shader_internal_id < shaders.len()) ==> exists|i: int|
                0 <= i < opaque_passes(keys, batches, materials, shaders, objects).len()
                    && (#[trigger] opaque_passes(keys, batches, materials, shaders, objects)[i]).0
                    == keys[j],
    decreases keys.len(),
{
    if keys.len() > 0 {
        let rest = keys.drop_last();
        law_passes_use_their_material_shader(rest, batches, materials, shaders, objects);
        let before = opaque_passes(rest, batches, materials, shaders, objects);
        let all = opaque_passes(keys, batches, materials, shaders, objects);
        let k = keys.last();
        assert forall|i: int| 0 <= i < all.len() implies {
            let pass = #[trigger] all[i];
            &&& keys.contains(pass.0)
            &&& pass.0 < materials.len()
            &&& materials[pass.0 as int] matches Material::Basic(m) && m.shader_internal_id
                < shaders.len() && pass.1 == shaders[m.shader_internal_id as int]
            &&& pass.2 == item_draws(batches[pass.0].1, objects)
        } by {
            if i < before.len() {
                assert(all[i] == before[i]);
                let j = choose|j: int| 0 <= j < rest.len() && rest[j] == before[i].0;
                assert(keys[j] == rest[j]);
            } else {
                assert(keys[keys.len() - 1] == k);
            }
        }
        assert forall|j: int|
            0 <= j < keys.len() && keys[j] < materials.len() && (materials[keys[j] as int] matches Material::Basic(
                m,
            ) && m.shader_internal_id < shaders.len()) implies exists|i: int|
                0 <= i < all.len() && (#[trigger] all[i]).0 == keys[j] by {
            if j < rest.len() {
                assert(rest[j] == keys[j]);
                let i = choose|i: int| 0 <= i < before.len() && (#[trigger] before[i]).0 == rest[j];
                assert(all[i] == before[i]);
            } else {
                assert(all[all.len() - 1].0 == k);
            }
        }
    }
}

impl RenderPipelineContext {
    /// The opaque batches: material id and items of each.
    pub closed spec fn opaque_batches(&self) -> Map<u32, BatchView> {
        Map::new(
            |k: u32| self.opaque_primitive_batches@.contains_key(k),
            |k: u32|
                (
                    self.opaque_primitive_batches@[k].material_internal_id,
                    self.opaque_primitive_batches@[k].items@,
                ),
        )
    }

    /// The transparent batches: material id and items of each.
    pub closed spec fn transparent_batches(&self) -> Map<u32, BatchView> {
        Map::new(
            |k: u32| self.transparent_primitive_batches@.contains_key(k),
            |k: u32|
                (
                    self.transparent_primitive_batches@[k].material_internal_id,
                    self.transparent_primitive_batches@[k].items@,
                ),
        )
    }

    /// No batches.
    pub fn create() -> (r: Self)
        ensures
            r.opaque_batches() == Map::<u32, BatchView>::empty(),
            r.transparent_batches() == Map::<u32, BatchView>::empty(),
    {
        let r = RenderPipelineContext {
            opaque_primitive_batches: HashMap::new(),
            transparent_primitive_batches: HashMap::new(),
        };
        assert(r.opaque_batches() =~= Map::<u32, BatchView>::empty());
        assert(r.transparent_batches() =~= Map::<u32, BatchView>::empty());
        r
    }

    fn add_to_opaque_primitive_batches(
        &mut self,
        material_internal_id: MaterialInternalId,
        item: RenderBatchItem,
    )
        ensures
            final(self).opaque_batches() == batches_with(
                old(self).opaque_batches(),
                material_internal_id,
                item,
            ),
            final(self).transparent_batches() == old(self).transparent_batches(),
    {
        match self.opaque_primitive_batches.remove(&material_internal_id) {
            Some(b) => {
                let mut b = b;
                b.items.push(item);
                self.opaque_primitive_batches.insert(material_internal_id, b);
            },
            None => {
                self.opaque_primitive_batches.insert(
                    material_internal_id,
                    OpaqueRenderBatch { material_internal_id, items: vec![item] },
                );
            },
        }
        let ghost expected = batches_with(old(self).opaque_batches(), material_internal_id, item);
        assert forall|k: u32| #[trigger] expected.contains_key(k) implies self.opaque_batches().contains_key(k)
            && self.opaque_batches()[k] == expected[k] by {
            if k != material_internal_id {
                assert(old(self).opaque_batches().contains_key(k));
            }
        }
        assert(self.opaque_batches() =~= expected);
        assert(self.transparent_batches() =~= old(self).transparent_batches());
    }

    fn add_to_transparent_primitive_batches(
        &mut self,
        material_internal_id: MaterialInternalId,
        item: RenderBatchItem,
    )
        ensures
            final(self).transparent_batches() == batches_with(
                old(self).transparent_batches(),
                material_internal_id,
                item,
            ),
            final(self).opaque_batches() == old(self).opaque_batches(),
    {
        match self.transparent_primitive_batches.remove(&material_internal_id) {
            Some(b) => {
                let mut b = b;
                b.items.push(item);
                self.transparent_primitive_batches.insert(material_internal_id, b);
            },
            None => {
                self.transparent_primitive_batches.insert(
                    material_internal_id,
                    TransparentRenderBatch { material_internal_id, items: vec![item] },
                );
            },
        }
        let ghost expected = batches_with(old(self).transparent_batches(), material_internal_id, item);
        assert forall|k: u32| #[trigger] expected.contains_key(k) implies self.transparent_batches().contains_key(k)
            && self.transparent_batches()[k] == expected[k] by {
            if k != material_internal_id {
                assert(old(self).transparent_batches().contains_key(k));
            }
        }
        assert(self.transparent_batches() =~= expected);
        assert(self.opaque_batches() =~= old(self).opaque_batches());
    }


    /// Drops every batch.
    fn clear_batches(&mut self)
        ensures
            final(self).opaque_batches() == Map::<u32, BatchView>::empty(),
            final(self).transparent_batches() == Map::<u32, BatchView>::empty(),
    {
        self.opaque_primitive_batches.clear();
        self.transparent_primitive_batches.clear();
        assert(self.opaque_batches() =~= Map::<u32, BatchView>::empty());
        assert(self.transparent_batches() =~= Map::<u32, BatchView>::empty());
    }

    /// Adds the items of the renderables of `node`, in order, each to the
    /// batches its material (looked up by the renderable object's id) calls for.
    fn add_node_items(&mut self, resource_manager: &ResourceManager, node: &SceneGraphNode)
        ensures
            final(self).opaque_batches() == batches_of(
                old(self).opaque_batches(),
                node_items(*node, node.renderables@, resource_manager.spec_materials(), false),
            ),
            final(self).transparent_batches() == batches_of(
                old(self).transparent_batches(),
                node_items(*node, node.renderables@, resource_manager.spec_materials(), true),
            ),
    {
        let ghost rends = node.renderables@;
        let ghost materials = resource_manager.spec_materials();
        proof {
            assert(rends.take(0) =~= Seq::<crate::scenes::SceneGraphNodeRenderable>::empty());
            assert(batches_of(old(self).opaque_batches(), node_items(*node, rends.take(0), materials, false))
                == old(self).opaque_batches()) by {
                reveal(node_items);
                reveal(batches_of);
            }
            assert(batches_of(old(self).transparent_batches(), node_items(*node, rends.take(0), materials, true))
                == old(self).transparent_batches()) by {
                reveal(node_items);
                reveal(batches_of);
            }
        }
        let mut j: usize = 0;
        while j < node.renderables.len()
            invariant
                materials == resource_manager.spec_materials(),
                rends == node.renderables@,
                j <= rends.len(),
                self.opaque_batches() == batches_of(
                    old(self).opaque_batches(),
                    node_items(*node, rends.take(j as int), materials, false),
                ),
                self.transparent_batches() == batches_of(
                    old(self).transparent_batches(),
                    node_items(*node, rends.take(j as int), materials, true),
                ),
            decreases rends.len() - j,
        {
            let ro_id = node.renderables[j].renderable_object_internal_id;
            let rbi = RenderBatchItem {
                renderable_object_internal_id: ro_id,
                transform_internal_id: node.transform_internal_id,
                node_id: node.id,
                distance_to_camera: F32_ZERO_BITS,
            };
            proof {
                lemma_node_items_step(*node, rends, j as int, materials, false);
                lemma_node_items_step(*node, rends, j as int, materials, true);
                lemma_batches_of_push(
                    old(self).opaque_batches(),
                    node_items(*node, rends.take(j as int), materials, false),
                    rbi,
                );
                lemma_batches_of_push(
                    old(self).transparent_batches(),
                    node_items(*node, rends.take(j as int), materials, true),
                    rbi,
                );
            }
            match resource_manager.get_material(&ro_id) {
                None => {},
                Some(m) => {
                    if m.is_transparent() {
                        self.add_to_transparent_primitive_batches(ro_id, rbi);
                    } else {
                        self.add_to_opaque_primitive_batches(ro_id, rbi);
                    }
                },
            }
            j = j + 1;
        }
        proof {
            assert(rends.take(rends.len() as int) =~= rends);
        }
    }

    /// Rebuilds the batches from the active nodes of `scene`: each renderable
    /// of an active node becomes an item (at distance zero), put into the
    /// transparent or the opaque batches by the transparency of the material
    /// found under the renderable object's id, and keyed by that same id;
    /// renderables for whose id no material exists are skipped.
    #[verifier::rlimit(30)]
    pub fn build_batches<C>(&mut self, resource_manager: &ResourceManager, scene: &SceneInstance<C>)
        ensures
            final(self).opaque_batches() == batches_of(
                Map::empty(),
                scene_items(
                    scene.graph.nodes@,
                    scene.graph.nodes@,
                    resource_manager.spec_materials(),
                    false,
                ),
            ),
            final(self).transparent_batches() == batches_of(
                Map::empty(),
                scene_items(
                    scene.graph.nodes@,
                    scene.graph.nodes@,
                    resource_manager.spec_materials(),
                    true,
                ),
            ),
    {
        self.clear_batches();
        let ghost graph = scene.graph.nodes@;
        let ghost materials = resource_manager.spec_materials();
        proof {
            assert(graph.take(0) =~= Seq::<SceneGraphNode>::empty());
            assert(batches_of(Map::empty(), scene_items(graph, graph.take(0), materials, false))
                == Map::<u32, BatchView>::empty()) by {
                reveal(scene_items);
                reveal(batches_of);
            }
            assert(batches_of(Map::empty(), scene_items(graph, graph.take(0), materials, true))
                == Map::<u32, BatchView>::empty()) by {
                reveal(scene_items);
                reveal(batches_of);
            }
        }
        let mut i: usize = 0;
        while i < scene.graph.nodes.len()
            invariant
                graph == scene.graph.nodes@,
                materials == resource_manager.spec_materials(),
                i <= graph.len(),
                self.opaque_batches() == batches_of(
                    Map::empty(),
                    scene_items(graph, graph.take(i as int), materials, false),
                ),
                self.transparent_batches() == batches_of(
                    Map::empty(),
                    scene_items(graph, graph.take(i as int), materials, true),
                ),
            decreases graph.len() - i,
        {
            let node = &scene.graph.nodes[i];
            proof {
                lemma_scene_items_step(graph, i as int, materials, false);
                lemma_scene_items_step(graph, i as int, materials, true);
                lemma_batches_of_append(
                    Map::empty(),
                    scene_items(graph, graph.take(i as int), materials, false),
                    node_items(*node, node.renderables@, materials, false),
                );
                lemma_batches_of_append(
                    Map::empty(),
                    scene_items(graph, graph.take(i as int), materials, true),
                    node_items(*node, node.renderables@, materials, true),
                );
            }
            if scene.graph.is_active(node.id) {
                self.add_node_items(resource_manager, node);
            }
            i = i + 1;
        }
        assert(graph.take(graph.len() as int) =~= graph);
    }

    /// Sorts the items of every opaque batch into drawing order.
    fn sort_opaque_batches(&mut self)
        ensures
            final(self).opaque_batches().dom() == old(self).opaque_batches().dom(),
            forall|k: u32|
                #![trigger final(self).opaque_batches()[k]]
                old(self).opaque_batches().contains_key(k) ==> final(self).opaque_batches()[k].0 == old(
                    self,
                ).opaque_batches()[k].0 && is_draw_sorted(
                    old(self).opaque_batches()[k].1,
                    final(self).opaque_batches()[k].1,
                    false,
                ),
            final(self).transparent_batches() == old(self).transparent_batches(),
    {
        let keys = map_keys(&self.opaque_primitive_batches);
        let ghost before = self.opaque_primitive_batches@;
        let mut idx: usize = 0;
        while idx < keys.len()
            invariant
                keys@.to_set() == before.dom(),
                keys@.no_duplicates(),
                idx <= keys@.len(),
                self.opaque_primitive_batches@.dom() == before.dom(),
                self.transparent_batches() == old(self).transparent_batches(),
                before == old(self).opaque_primitive_batches@,
                forall|k: u32|
                    #![trigger self.opaque_primitive_batches@[k]]
                    before.contains_key(k) ==> if keys@.take(idx as int).contains(k) {
                        self.opaque_primitive_batches@[k].material_internal_id
                            == before[k].material_internal_id && is_draw_sorted(
                            before[k].items@,
                            self.opaque_primitive_batches@[k].items@,
                            false,
                        )
                    } else {
                        self.opaque_primitive_batches@[k] == before[k]
                    },
            decreases keys@.len() - idx,
        {
            let key = keys[idx];
            let ghost done = keys@.take(idx as int);
            let ghost done_next = keys@.take(idx + 1);
            proof {
                assert(done_next =~= done.push(key));
                assert(keys@.to_set().contains(key)) by {
                    assert(keys@[idx as int] == key);
                }
                assert(!done.contains(key)) by {
                    if done.contains(key) {
                        let j = choose|j: int| 0 <= j < idx && done[j] == key;
                        assert(keys@[j] == keys@[idx as int]);
                    }
                }
            }
            let ghost cur = self.opaque_primitive_batches@;
            match self.opaque_primitive_batches.remove(&key) {
                Some(b) => {
                    let mut b = b;
                    sort_items(&mut b.items, false);
                    self.opaque_primitive_batches.insert(key, b);
                    proof {
                        assert(self.opaque_primitive_batches@ == cur.insert(key, b));
                    }
                },
                None => {},
            }
            proof {
                assert forall|k: u32| #[trigger] before.contains_key(k) && k != key implies
                    done_next.contains(k) == done.contains(k) by {
                    if done_next.contains(k) {
                        let j = choose|j: int| 0 <= j < idx + 1 && done_next[j] == k;
                        assert(done[j] == k);
                    }
                    if done.contains(k) {
                        let j = choose|j: int| 0 <= j < idx && done[j] == k;
                        assert(done_next[j] == k);
                    }
                }
                assert(done_next.contains(key)) by {
                    assert(done_next[idx as int] == key);
                }
            }
            idx = idx + 1;
        }
        proof {
            assert(keys@.take(keys@.len() as int) =~= keys@);
            assert forall|k: u32| before.contains_key(k) implies keys@.contains(k) by {
                assert(keys@.to_set().contains(k));
            }
            assert(self.opaque_batches().dom() =~= old(self).opaque_batches().dom());
        }
    }

    /// Sorts the items of every transparent batch into drawing order.
    fn sort_transparent_batches(&mut self)
        ensures
            final(self).transparent_batches().dom() == old(self).transparent_batches().dom(),
            forall|k: u32|
                #![trigger final(self).transparent_batches()[k]]
                old(self).transparent_batches().contains_key(k) ==> final(self).transparent_batches()[k].0 == old(
                    self,
                ).transparent_batches()[k].0 && is_draw_sorted(
                    old(self).transparent_batches()[k].1,
                    final(self).transparent_batches()[k].1,
                    true,
                ),
            final(self).opaque_batches() == old(self).opaque_batches(),
    {
        let keys = map_keys(&self.transparent_primitive_batches);
        let ghost before = self.transparent_primitive_batches@;
        let mut idx: usize = 0;
        while idx < keys.len()
            invariant
                keys@.to_set() == before.dom(),
                keys@.no_duplicates(),
                idx <= keys@.len(),
                self.transparent_primitive_batches@.dom() == before.dom(),
                self.opaque_batches() == old(self).opaque_batches(),
                before == old(self).transparent_primitive_batches@,
                forall|k: u32|
                    #![trigger self.transparent_primitive_batches@[k]]
                    before.contains_key(k) ==> if keys@.take(idx as int).contains(k) {
                        self.transparent_primitive_batches@[k].material_internal_id
                            == before[k].material_internal_id && is_draw_sorted(
                            before[k].items@,
                            self.transparent_primitive_batches@[k].items@,
                            true,
                        )
                    } else {
                        self.transparent_primitive_batches@[k] == before[k]
                    },
            decreases keys@.len() - idx,
        {
            let key = keys[idx];
            let ghost done = keys@.take(idx as int);
            let ghost done_next = keys@.take(idx + 1);
            proof {
                assert(done_next =~= done.push(key));
                assert(keys@.to_set().contains(key)) by {
                    assert(keys@[idx as int] == key);
                }
                assert(!done.contains(key)) by {
                    if done.contains(key) {
                        let j = choose|j: int| 0 <= j < idx && done[j] == key;
                        assert(keys@[j] == keys@[idx as int]);
                    }
                }
            }
            let ghost cur = self.transparent_primitive_batches@;
            match self.transparent_primitive_batches.remove(&key) {
                Some(b) => {
                    let mut b = b;
                    sort_items(&mut b.items, true);
                    self.transparent_primitive_batches.insert(key, b);
                    proof {
                        assert(self.transparent_primitive_batches@ == cur.insert(key, b));
                    }
                },
                None => {},
            }
            proof {
                assert forall|k: u32| #[trigger] before.contains_key(k) && k != key implies
                    done_next.contains(k) == done.contains(k) by {
                    if done_next.contains(k) {
                        let j = choose|j: int| 0 <= j < idx + 1 && done_next[j] == k;
                        assert(done[j] == k);
                    }
                    if done.contains(k) {
                        let j = choose|j: int| 0 <= j < idx && done[j] == k;
                        assert(done_next[j] == k);
                    }
                }
                assert(done_next.contains(key)) by {
                    assert(done_next[idx as int] == key);
                }
            }
            idx = idx + 1;
        }
        proof {
            assert(keys@.take(keys@.len() as int) =~= keys@);
            assert forall|k: u32| before.contains_key(k) implies keys@.contains(k) by {
                assert(keys@.to_set().contains(k));
            }
            assert(self.transparent_batches().dom() =~= old(self).transparent_batches().dom());
        }
    }

    /// Sorts the items of every batch: opaque ones front to back, transparent
    /// ones back to front, items at equal distance keeping their order.
    pub fn sort(&mut self)
        ensures
            final(self).opaque_batches().dom() == old(self).opaque_batches().dom(),
            forall|k: u32|
                #![trigger final(self).opaque_batches()[k]]
                old(self).opaque_batches().contains_key(k) ==> final(self).opaque_batches()[k].0 == old(
                    self,
                ).opaque_batches()[k].0 && is_draw_sorted(
                    old(self).opaque_batches()[k].1,
                    final(self).opaque_batches()[k].1,
                    false,
                ),
            final(self).transparent_batches().dom() == old(self).transparent_batches().dom(),
            forall|k: u32|
                #![trigger final(self).transparent_batches()[k]]
                old(self).transparent_batches().contains_key(k) ==> final(self).transparent_batches()[k].0
                    == old(self).transparent_batches()[k].0 && is_draw_sorted(
                    old(self).transparent_batches()[k].1,
                    final(self).transparent_batches()[k].1,
                    true,
                ),
    {
        self.sort_opaque_batches();
        self.sort_transparent_batches();
    }

    /// Empties the items of every opaque batch, keeping the batches.
    fn reset_opaque_batches(&mut self)
        ensures
            final(self).opaque_batches().dom() == old(self).opaque_batches().dom(),
            forall|k: u32|
                #![trigger final(self).opaque_batches()[k]]
                old(self).opaque_batches().contains_key(k) ==> final(self).opaque_batches()[k] == (
                old(self).opaque_batches()[k].0,
                Seq::<RenderBatchItem>::empty(),
            ),
            final(self).transparent_batches() == old(self).transparent_batches(),
    {
        let keys = map_keys(&self.opaque_primitive_batches);
        let ghost before = self.opaque_primitive_batches@;
        let mut idx: usize = 0;
        while idx < keys.len()
            invariant
                keys@.to_set() == before.dom(),
                keys@.no_duplicates(),
                idx <= keys@.len(),
                self.opaque_primitive_batches@.dom() == before.dom(),
                self.transparent_batches() == old(self).transparent_batches(),
                before == old(self).opaque_primitive_batches@,
                forall|k: u32|
                    #![trigger self.opaque_primitive_batches@[k]]
                    before.contains_key(k) ==> if keys@.take(idx as int).contains(k) {
                        self.opaque_primitive_batches@[k].material_internal_id
                            == before[k].material_internal_id
                            && self.opaque_primitive_batches@[k].items@.len() == 0
                    } else {
                        self.opaque_primitive_batches@[k] == before[k]
                    },
            decreases keys@.len() - idx,
        {
            let key = keys[idx];
            let ghost done = keys@.take(idx as int);
            let ghost done_next = keys@.take(idx + 1);
            proof {
                assert(done_next =~= done.push(key));
                assert(keys@.to_set().contains(key)) by {
                    assert(keys@[idx as int] == key);
                }
                assert(!done.contains(key)) by {
                    if done.contains(key) {
                        let j = choose|j: int| 0 <= j < idx && done[j] == key;
                        assert(keys@[j] == keys@[idx as int]);
                    }
                }
            }
            let ghost cur = self.opaque_primitive_batches@;
            match self.opaque_primitive_batches.remove(&key) {
                Some(b) => {
                    let mut b = b;
                    b.items.clear();
                    self.opaque_primitive_batches.insert(key, b);
                    proof {
                        assert(self.opaque_primitive_batches@ == cur.insert(key, b));
                    }
                },
                None => {},
            }
            proof {
                assert forall|k: u32| #[trigger] before.contains_key(k) && k != key implies
                    done_next.contains(k) == done.contains(k) by {
                    if done_next.contains(k) {
                        let j = choose|j: int| 0 <= j < idx + 1 && done_next[j] == k;
                        assert(done[j] == k);
                    }
                    if done.contains(k) {
                        let j = choose|j: int| 0 <= j < idx && done[j] == k;
                        assert(done_next[j] == k);
                    }
                }
                assert(done_next.contains(key)) by {
                    assert(done_next[idx as int] == key);
                }
            }
            idx = idx + 1;
        }
        proof {
            assert(keys@.take(keys@.len() as int) =~= keys@);
            assert forall|k: u32| before.contains_key(k) implies keys@.contains(k) by {
                assert(keys@.to_set().contains(k));
            }
            assert(self.opaque_batches().dom() =~= old(self).opaque_batches().dom());
            assert forall|k: u32| #[trigger] old(self).opaque_batches().contains_key(k) implies
                self.opaque_batches()[k] == (old(self).opaque_batches()[k].0, Seq::<RenderBatchItem>::empty()) by {
                assert(keys@.contains(k));
                assert(self.opaque_primitive_batches@[k].items@ =~= Seq::<RenderBatchItem>::empty());
            }
        }
    }

    /// Empties the items of every transparent batch, keeping the batches.
    fn reset_transparent_batches(&mut self)
        ensures
            final(self).transparent_batches().dom() == old(self).transparent_batches().dom(),
            forall|k: u32|
                #![trigger final(self).transparent_batches()[k]]
                old(self).transparent_batches().contains_key(k) ==> final(self).transparent_batches()[k] == (
                old(self).transparent_batches()[k].0,
                Seq::<RenderBatchItem>::empty(),
            ),
            final(self).opaque_batches() == old(self).opaque_batches(),
    {
        let keys = map_keys(&self.transparent_primitive_batches);
        let ghost before = self.transparent_primitive_batches@;
        let mut idx: usize = 0;
        while idx < keys.len()
            invariant
                keys@.to_set() == before.dom(),
                keys@.no_duplicates(),
                idx <= keys@.len(),
                self.transparent_primitive_batches@.dom() == before.dom(),
                self.opaque_batches() == old(self).opaque_batches(),
                before == old(self).transparent_primitive_batches@,
                forall|k: u32|
                    #![trigger self.transparent_primitive_batches@[k]]
                    before.contains_key(k) ==> if keys@.take(idx as int).contains(k) {
                        self.transparent_primitive_batches@[k].material_internal_id
                            == before[k].material_internal_id
                            && self.transparent_primitive_batches@[k].items@.len() == 0
                    } else {
                        self.transparent_primitive_batches@[k] == before[k]
                    },
            decreases keys@.len() - idx,
        {
            let key = keys[idx];
            let ghost done = keys@.take(idx as int);
            let ghost done_next = keys@.take(idx + 1);
            proof {
                assert(done_next =~= done.push(key));
                assert(keys@.to_set().contains(key)) by {
                    assert(keys@[idx as int] == key);
                }
                assert(!done.contains(key)) by {
                    if done.contains(key) {
                        let j = choose|j: int| 0 <= j < idx && done[j] == key;
                        assert(keys@[j] == keys@[idx as int]);
                    }
                }
            }
            let ghost cur = self.transparent_primitive_batches@;
            match self.transparent_primitive_batches.remove(&key) {
                Some(b) => {
                    let mut b = b;
                    b.items.clear();
                    self.transparent_primitive_batches.insert(key, b);
                    proof {
                        assert(self.transparent_primitive_batches@ == cur.insert(key, b));
                    }
                },
                None => {},
            }
            proof {
                assert forall|k: u32| #[trigger] before.contains_key(k) && k != key implies
                    done_next.contains(k) == done.contains(k) by {
                    if done_next.contains(k) {
                        let j = choose|j: int| 0 <= j < idx + 1 && done_next[j] == k;
                        assert(done[j] == k);
                    }
                    if done.contains(k) {
                        let j = choose|j: int| 0 <= j < idx && done[j] == k;
                        assert(done_next[j] == k);
                    }
                }
                assert(done_next.contains(key)) by {
                    assert(done_next[idx as int] == key);
                }
            }
            idx = idx + 1;
        }
        proof {
            assert(keys@.take(keys@.len() as int) =~= keys@);
            assert forall|k: u32| before.contains_key(k) implies keys@.contains(k) by {
                assert(keys@.to_set().contains(k));
            }
            assert(self.transparent_batches().dom() =~= old(self).transparent_batches().dom());
            assert forall|k: u32| #[trigger] old(self).transparent_batches().contains_key(k) implies
                self.transparent_batches()[k] == (old(self).transparent_batches()[k].0, Seq::<RenderBatchItem>::empty()) by {
                assert(keys@.contains(k));
                assert(self.transparent_primitive_batches@[k].items@ =~= Seq::<RenderBatchItem>::empty());
            }
        }
    }

    /// Empties every batch, keeping the batches themselves (and their material
    /// ids) for the next frame.
    pub fn reset(&mut self)
        ensures
            final(self).opaque_batches().dom() == old(self).opaque_batches().dom(),
            forall|k: u32|
                #![trigger final(self).opaque_batches()[k]]
                old(self).opaque_batches().contains_key(k) ==> final(self).opaque_batches()[k] == (
                old(self).opaque_batches()[k].0,
                Seq::<RenderBatchItem>::empty(),
            ),
            final(self).transparent_batches().dom() == old(self).transparent_batches().dom(),
            forall|k: u32|
                #![trigger final(self).transparent_batches()[k]]
                old(self).transparent_batches().contains_key(k) ==> final(self).transparent_batches()[k]
                    == (old(self).transparent_batches()[k].0, Seq::<RenderBatchItem>::empty()),
    {
        self.reset_opaque_batches();
        self.reset_transparent_batches();
    }

    /// The opaque pass: for each batch, in the order the map yields them, the
    /// shader of its material and the draws of its items. Batches whose
    /// material is not a basic one, or whose shader is missing, are skipped.
    pub fn opaque_pass_plan(&self, resource_manager: &ResourceManager) -> (r: Vec<ShaderPass>)
        ensures
            exists|keys: Seq<u32>|
                #![trigger opaque_passes(keys, self.opaque_batches(), resource_manager.spec_materials(),
                    resource_manager.spec_shaders(), resource_manager.spec_renderable_objects())]
                keys.no_duplicates() && keys.to_set() == self.opaque_batches().dom() && passes_are(
                    r@,
                    opaque_passes(
                        keys,
                        self.opaque_batches(),
                        resource_manager.spec_materials(),
                        resource_manager.spec_shaders(),
                        resource_manager.spec_renderable_objects(),
                    ),
                ),
    {
        let keys = map_keys(&self.opaque_primitive_batches);
        let ghost batches = self.opaque_batches();
        let ghost materials = resource_manager.spec_materials();
        let ghost shaders = resource_manager.spec_shaders();
        let ghost objects = resource_manager.spec_renderable_objects();
        let mut r: Vec<ShaderPass> = Vec::new();
        let mut idx: usize = 0;
        proof {
            assert(keys@.take(0) =~= Seq::<u32>::empty());
        }
        while idx < keys.len()
            invariant
                keys@.to_set() == batches.dom(),
                batches == self.opaque_batches(),
                materials == resource_manager.spec_materials(),
                shaders == resource_manager.spec_shaders(),
                objects == resource_manager.spec_renderable_objects(),
                idx <= keys@.len(),
                passes_are(r@, opaque_passes(keys@.take(idx as int), batches, materials, shaders, objects)),
            decreases keys@.len() - idx,
        {
            let key = keys[idx];
            let ghost before = opaque_passes(keys@.take(idx as int), batches, materials, shaders, objects);
            proof {
                assert(keys@.take(idx + 1).drop_last() =~= keys@.take(idx as int));
                assert(keys@.take(idx + 1).last() == key);
                assert(keys@.to_set().contains(key)) by {
                    assert(keys@[idx as int] == key);
                }
            }
            match resource_manager.get_material(&key) {
                Some(Material::Basic(m)) => {
                    match resource_manager.get_shader(&m.shader_internal_id) {
                        Some(shader) => {
                            match self.opaque_primitive_batches.get(&key) {
                                Some(batch) => {
                                    let draws = draws_for_items(&batch.items, resource_manager);
                                    let pass = ShaderPass {
                                        material_internal_id: key,
                                        shader: *shader,
                                        draws,
                                    };
                                    let ghost r_before = r@;
                                    r.push(pass);
                                    proof {
                                        assert forall|i: int| 0 <= i < r@.len() implies #[trigger] r@[i]@
                                            == opaque_passes(keys@.take(idx + 1), batches, materials, shaders, objects)[i] by {
                                            if i < r_before.len() {
                                                assert(r@[i] == r_before[i]);
                                            }
                                        }
                                    }
                                },
                                None => {},
                            }
                        },
                        None => {},
                    }
                },
                _ => {},
            }
            idx = idx + 1;
        }
        proof {
            assert(keys@.take(keys@.len() as int) =~= keys@);
        }
        r
    }
}


/// The frame's render passes over a scene: it batches the scene's
/// renderables, orders them and plans the draws; the caller makes the GPU
/// calls.
#[allow(unused)]
pub struct RenderPipeline {
    context: RenderPipelineContext,
    config: RenderPipelineConfiguration,
}

impl RenderPipeline {
    pub closed spec fn spec_context(&self) -> RenderPipelineContext {
        self.context
    }

    pub closed spec fn spec_config(&self) -> RenderPipelineConfiguration {
        self.config
    }

    /// A pipeline with no batches and the given configuration.
    pub fn create(cfg: RenderPipelineConfiguration) -> (r: Self)
        ensures
            r.spec_context().opaque_batches() == Map::<u32, BatchView>::empty(),
            r.spec_context().transparent_batches() == Map::<u32, BatchView>::empty(),
            r.spec_config() == cfg,
    {
        RenderPipeline { context: RenderPipelineContext::create(), config: cfg }
    }

    /// Leaves the pipeline as it is: the context keeps nothing that needs
    /// clearing before a frame.
    pub fn clear_context(&mut self)
        ensures
            final(self).spec_context() == old(self).spec_context(),
            final(self).spec_config() == old(self).spec_config(),
    {
    }

    /// Prepares a frame of `scene`: rebuilds the batches from the scene's
    /// active nodes, sorts them, and returns the opaque pass to draw. The
    /// shadow, transparent, interface, text, particle and post-effect passes
    /// draw nothing.
    pub fn render_scene<C>(&mut self, scene: &SceneInstance<C>, resource_manager: &ResourceManager) -> (r: Vec<
        ShaderPass,
    >)
        ensures
            final(self).spec_config() == old(self).spec_config(),
            final(self).spec_context().opaque_batches().dom() == batches_of(
                Map::empty(),
                scene_items(scene.graph.nodes@, scene.graph.nodes@, resource_manager.spec_materials(), false),
            ).dom(),
            forall|k: u32|
                #![trigger final(self).spec_context().opaque_batches()[k]]
                final(self).spec_context().opaque_batches().contains_key(k) ==> {
                    let built = batches_of(
                        Map::empty(),
                        scene_items(
                            scene.graph.nodes@,
                            scene.graph.nodes@,
                            resource_manager.spec_materials(),
                            false,
                        ),
                    );
                    final(self).spec_context().opaque_batches()[k].0 == built[k].0 && is_draw_sorted(
                        built[k].1,
                        final(self).spec_context().opaque_batches()[k].1,
                        false,
                    )
                },
            final(self).spec_context().transparent_batches().dom() == batches_of(
                Map::empty(),
                scene_items(scene.graph.nodes@, scene.graph.nodes@, resource_manager.spec_materials(), true),
            ).dom(),
            forall|k: u32|
                #![trigger final(self).spec_context().transparent_batches()[k]]
                final(self).spec_context().transparent_batches().contains_key(k) ==> {
                    let built = batches_of(
                        Map::empty(),
                        scene_items(
                            scene.graph.nodes@,
                            scene.graph.nodes@,
                            resource_manager.spec_materials(),
                            true,
                        ),
                    );
                    final(self).spec_context().transparent_batches()[k].0 == built[k].0 && is_draw_sorted(
                        built[k].1,
                        final(self).spec_context().transparent_batches()[k].1,
                        true,
                    )
                },
            exists|keys: Seq<u32>|
                #![trigger opaque_passes(keys, final(self).spec_context().opaque_batches(),
                    resource_manager.spec_materials(), resource_manager.spec_shaders(),
                    resource_manager.spec_renderable_objects())]
                keys.no_duplicates() && keys.to_set() == final(self).spec_context().opaque_batches().dom()
                    && passes_are(
                    r@,
                    opaque_passes(
                        keys,
                        final(self).spec_context().opaque_batches(),
                        resource_manager.spec_materials(),
                        resource_manager.spec_shaders(),
                        resource_manager.spec_renderable_objects(),
                    ),
                ),
    {
        self.context.build_batches(resource_manager, scene);
        self.context.sort();
        self.context.opaque_pass_plan(resource_manager)
    }

    /// Empties every batch after a frame, keeping the batches.
    pub fn reset_context(&mut self)
        ensures
            final(self).spec_config() == old(self).spec_config(),
            final(self).spec_context().opaque_batches().dom() == old(self).spec_context().opaque_batches().dom(),
            forall|k: u32|
                #![trigger final(self).spec_context().opaque_batches()[k]]
                old(self).spec_context().opaque_batches().contains_key(k)
                    ==> final(self).spec_context().opaque_batches()[k] == (
                    old(self).spec_context().opaque_batches()[k].0,
                    Seq::<RenderBatchItem>::empty(),
                ),
            final(self).spec_context().transparent_batches().dom() == old(self).spec_context().transparent_batches().dom(),
            forall|k: u32|
                #![trigger final(self).spec_context().transparent_batches()[k]]
                old(self).spec_context().transparent_batches().contains_key(k)
                    ==> final(self).spec_context().transparent_batches()[k] == (
                    old(self).spec_context().transparent_batches()[k].0,
                    Seq::<RenderBatchItem>::empty(),
                ),
    {
        self.context.reset();
    }
}

} // verus!
