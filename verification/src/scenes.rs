use crate::maths::Transform;
use crate::templates::SceneTemplate;
use vstd::prelude::*;

verus! {

pub type TransformInternalId = u32;

pub type NodeId = u32;

/// What a node draws: a renderable object with a material.
#[derive(Clone, Copy, PartialEq, Eq, Structural, Debug)]
pub struct SceneGraphNodeRenderable {
    pub renderable_object_internal_id: u32,
    pub material_internal_id: u32,
}

impl SceneGraphNodeRenderable {
    pub fn create(renderable_object_internal_id: u32, material_internal_id: u32) -> (r: Self)
        ensures
            r == (SceneGraphNodeRenderable { renderable_object_internal_id, material_internal_id }),
    {
        SceneGraphNodeRenderable { renderable_object_internal_id, material_internal_id }
    }
}

/// The scene graph. Nodes are kept in a flat store with the ids of their
/// parent and children, so the whole graph can be walked without recursion.
pub struct SceneGraph {
    pub nodes: Vec<SceneGraphNode>,
}

pub struct SceneGraphNode {
    pub id: NodeId,
    pub active: bool,
    pub transform_internal_id: TransformInternalId,
    pub parent_node_id: Option<NodeId>,
    pub children: Vec<NodeId>,
    pub renderables: Vec<SceneGraphNodeRenderable>,
}

/// The position of the first node with id `id`, if any.
pub open spec fn node_position(nodes: Seq<SceneGraphNode>, id: NodeId) -> Option<int> {
    if exists|i: int| 0 <= i < nodes.len() && nodes[i].id == id {
        Some(
            choose|i: int|
                0 <= i < nodes.len() && nodes[i].id == id && forall|j: int|
                    0 <= j < i ==> nodes[j].id != id,
        )
    } else {
        None
    }
}

/// Node `id` is active and so is each of its ancestors, looking at most
/// `depth` nodes up the chain of parents.
pub open spec fn active_within(nodes: Seq<SceneGraphNode>, id: NodeId, depth: nat) -> bool
    decreases depth,
{
    if depth == 0 {
        false
    } else {
        match node_position(nodes, id) {
            None => false,
            Some(i) => nodes[i].active && match nodes[i].parent_node_id {
                None => true,
                Some(parent) => active_within(nodes, parent, (depth - 1) as nat),
            },
        }
    }
}

/// A node is active when it and all its ancestors are. A chain of parents
/// longer than the number of nodes (a cycle) counts as inactive.
pub open spec fn node_is_active(nodes: Seq<SceneGraphNode>, id: NodeId) -> bool {
    active_within(nodes, id, nodes.len())
}

proof fn lemma_first_position(nodes: Seq<SceneGraphNode>, id: NodeId, i: int)
    requires
        0 <= i < nodes.len(),
        nodes[i].id == id,
        forall|j: int| 0 <= j < i ==> nodes[j].id != id,
    ensures
        node_position(nodes, id) == Some(i),
{
    let k = choose|k: int|
        0 <= k < nodes.len() && nodes[k].id == id && forall|j: int| 0 <= j < k ==> nodes[j].id != id;
    assert(k == i) by {
        if k < i {
            assert(nodes[k].id != id);
        }
        if i < k {
            assert(nodes[i].id != id);
        }
    }
}

proof fn lemma_active_within_monotone(nodes: Seq<SceneGraphNode>, id: NodeId, d1: nat, d2: nat)
    requires
        d1 <= d2,
        active_within(nodes, id, d1),
    ensures
        active_within(nodes, id, d2),
    decreases d1,
{
    if d1 > 0 {
        match node_position(nodes, id) {
            Some(i) => match nodes[i].parent_node_id {
                Some(p) => lemma_active_within_monotone(
                    nodes,
                    p,
                    (d1 - 1) as nat,
                    (d2 - 1) as nat,
                ),
                None => {},
            },
            None => {},
        }
    }
}

/// A node counts as active only if it is in the graph, is flagged active,
/// and its parent, if it has one, counts as active too; so a node flagged
/// inactive hides itself and everything under it.
pub proof fn law_active_node_has_active_parent(nodes: Seq<SceneGraphNode>, id: NodeId)
    requires
        node_is_active(nodes, id),
    ensures
        node_position(nodes, id) matches Some(i) && nodes[i].active && (nodes[i].parent_node_id matches Some(
            p,
        ) ==> node_is_active(nodes, p)),
{
    let i = node_position(nodes, id)->0;
    match nodes[i].parent_node_id {
        Some(p) => {
            lemma_active_within_monotone(nodes, p, (nodes.len() - 1) as nat, nodes.len());
        },
        None => {},
    }
}

impl SceneGraph {
    /// The position of the first node with id `id`.
    fn find(&self, id: NodeId) -> (r: Option<usize>)
        ensures
            r matches Some(i) ==> i < self.nodes@.len() && node_position(self.nodes@, id) == Some(
                i as int,
            ),
            r is None ==> node_position(self.nodes@, id) is None,
    {
        let mut i: usize = 0;
        while i < self.nodes.len()
            invariant
                i <= self.nodes@.len(),
                forall|j: int| 0 <= j < i ==> self.nodes@[j].id != id,
            decreases self.nodes@.len() - i,
        {
            if self.nodes[i].id == id {
                proof {
                    lemma_first_position(self.nodes@, id, i as int);
                }
                return Some(i);
            }
            i = i + 1;
        }
        None
    }

    /// Whether node `node_id` and all its ancestors are active.
    pub fn is_active(&self, node_id: NodeId) -> (r: bool)
        ensures
            r == node_is_active(self.nodes@, node_id),
    {
        let mut id = node_id;
        let mut depth: usize = self.nodes.len();
        loop
            invariant
                depth <= self.nodes@.len(),
                node_is_active(self.nodes@, node_id) == active_within(self.nodes@, id, depth as nat),
            decreases depth,
        {
            if depth == 0 {
                return false;
            }
            match self.find(id) {
                None => {
                    return false;
                },
                Some(i) => {
                    if !self.nodes[i].active {
                        return false;
                    }
                    match self.nodes[i].parent_node_id {
                        None => {
                            return true;
                        },
                        Some(parent) => {
                            id = parent;
                            depth = depth - 1;
                        },
                    }
                },
            }
        }
    }
}

/// All transforms of a scene, flat, under a root transform.
pub struct TransformsCollection {
    root: Transform,
    transforms: Vec<Transform>,
}

impl TransformsCollection {
    pub closed spec fn spec_root(&self) -> Transform {
        self.root
    }

    pub closed spec fn spec_transforms(&self) -> Seq<Transform> {
        self.transforms@
    }

    /// The identity root and no transforms.
    pub fn new() -> (r: Self)
        ensures
            r.spec_root() == Transform::spec_default(),
            r.spec_transforms() == Seq::<Transform>::empty(),
    {
        TransformsCollection { root: Transform::default(), transforms: Vec::new() }
    }

    pub fn root(&self) -> (r: Transform)
        ensures
            r == self.spec_root(),
    {
        self.root
    }

    pub fn transforms(&self) -> (r: &[Transform])
        ensures
            r@ == self.spec_transforms(),
    {
        self.transforms.as_slice()
    }
}

/// A loaded scene: its graph, its transforms and its main camera (whatever
/// type the caller keeps cameras in).
pub struct SceneInstance<C> {
    pub graph: SceneGraph,
    pub transforms: TransformsCollection,
    pub main_camera: C,
}

impl<C> SceneInstance<C> {
    pub fn create(
        nodes: Vec<SceneGraphNode>,
        transforms: Vec<Transform>,
        world_root: Transform,
        main_camera: C,
    ) -> (r: Self)
        ensures
            r.graph.nodes@ == nodes@,
            r.transforms.spec_transforms() == transforms@,
            r.transforms.spec_root() == world_root,
            r.main_camera == main_camera,
    {
        SceneInstance {
            main_camera,
            graph: SceneGraph { nodes },
            transforms: TransformsCollection { root: world_root, transforms },
        }
    }

    /// The smallest scene: no nodes, no transforms.
    pub fn blank(main_camera: C) -> (r: Self)
        ensures
            r.graph.nodes@ == Seq::<SceneGraphNode>::empty(),
            r.transforms.spec_transforms() == Seq::<Transform>::empty(),
            r.transforms.spec_root() == Transform::spec_default(),
            r.main_camera == main_camera,
    {
        SceneInstance {
            main_camera,
            graph: SceneGraph { nodes: Vec::new() },
            transforms: TransformsCollection::new(),
        }
    }
}

/// Holds the active scene.
pub struct SceneManager<C> {
    active_scene: Option<SceneInstance<C>>,
}

impl<C> SceneManager<C> {
    pub closed spec fn spec_active_scene(&self) -> Option<SceneInstance<C>> {
        self.active_scene
    }

    /// No active scene.
    pub fn create() -> (r: Self)
        ensures
            r.spec_active_scene() is None,
    {
        SceneManager { active_scene: None }
    }

    /// Makes a new blank scene with the given camera the active one; the
    /// previous scene is dropped.
    pub fn load_scene(&mut self, template: &SceneTemplate, main_camera: C)
        ensures
            final(self).spec_active_scene() matches Some(s) && s.graph.nodes@.len() == 0
                && s.transforms.spec_transforms().len() == 0 && s.transforms.spec_root()
                == Transform::spec_default() && s.main_camera == main_camera,
    {
        let scene = SceneInstance::blank(main_camera);
        self.active_scene = Some(scene);
    }
}

} // verus!
