//! The scene graph: an arena of render nodes.
//!
//! Nodes are added children first, so a node is always younger than the
//! nodes it encloses. A node refers to its children and to its parent by
//! their places in the arena; the arena owns them all.

use vstd::prelude::*;
use crate::materials::Material;
use crate::nodes::{Geometry, Image, Shadow, Transform};
use crate::render_node::RenderNode;
use crate::scalar::Matrix;

verus! {

/// The place of a node in its scene graph.
pub type NodeId = usize;

/// The kinds of render node.
#[derive(Clone, Copy, Debug, PartialEq, Eq, Structural)]
pub enum NodeKind {
    Geometry,
    Image,
    Shadow,
    Transform,
}

/// A render node of any kind. A transform refers to its child by the child's
/// place in the graph.
pub enum Node<V, M: Material> {
    Geometry(Geometry<V, M>),
    Image(Image),
    Shadow(Shadow),
    Transform(Transform<NodeId>),
}

/// Why a node could not be added to a graph.
#[derive(Clone, Copy, Debug, PartialEq, Eq, Structural)]
pub enum SceneError {
    /// A child is no node of the graph.
    UnknownNode,
    /// A child has a parent already.
    AlreadyAttached,
    /// A child is named twice.
    DuplicateChild,
}

/// What the shape of a graph says of one node.
pub struct NodeModel {
    pub kind: NodeKind,
    pub parent: Option<NodeId>,
    pub children: Seq<NodeId>,
}

impl<V, M: Material> Node<V, M> {
    pub open spec fn spec_kind(&self) -> NodeKind {
        match self {
            Node::Geometry(_) => NodeKind::Geometry,
            Node::Image(_) => NodeKind::Image,
            Node::Shadow(_) => NodeKind::Shadow,
            Node::Transform(_) => NodeKind::Transform,
        }
    }

    #[verifier::when_used_as_spec(spec_kind)]
    pub fn kind(&self) -> (kind: NodeKind)
        ensures
            kind == self.spec_kind(),
    {
        match self {
            Node::Geometry(_) => NodeKind::Geometry,
            Node::Image(_) => NodeKind::Image,
            Node::Shadow(_) => NodeKind::Shadow,
            Node::Transform(_) => NodeKind::Transform,
        }
    }
}

/// A node of this kind may have this many children: an image or a shadow
/// none, a transform exactly one, geometry as many as its maker gave it.
pub open spec fn arity_fits(kind: NodeKind, children: nat) -> bool {
    match kind {
        NodeKind::Image | NodeKind::Shadow => children == 0,
        NodeKind::Transform => children == 1,
        NodeKind::Geometry => true,
    }
}

/// What a forest asks of the node at `i`: its children come before it, name
/// it as their parent and occur once; its parent comes after it and lists it;
/// and it has as many children as its kind allows.
pub open spec fn node_fits(tree: Seq<NodeModel>, i: int) -> bool {
    &&& forall|k: int|
        0 <= k < tree[i].children.len() ==> (#[trigger] tree[i].children[k]) < i && tree[tree[i].children[k] as int].parent
            == Some(i as usize)
    &&& tree[i].children.no_duplicates()
    &&& match tree[i].parent {
        Some(p) => i < p < tree.len() && tree[p as int].children.contains(i as usize),
        None => true,
    }
    &&& arity_fits(tree[i].kind, tree[i].children.len())
}

/// The nodes form a forest in which every node is younger than its children.
pub open spec fn tree_like(tree: Seq<NodeModel>) -> bool {
    forall|i: int| 0 <= i < tree.len() ==> #[trigger] node_fits(tree, i)
}

/// Every entry of the list is a node of the graph.
pub open spec fn all_known(tree: Seq<NodeModel>, children: Seq<NodeId>) -> bool {
    forall|k: int| 0 <= k < children.len() ==> #[trigger] children[k] < tree.len()
}

/// No entry of the list has a parent.
pub open spec fn all_orphans(tree: Seq<NodeModel>, children: Seq<NodeId>) -> bool {
    forall|k: int| 0 <= k < children.len() ==> tree[(#[trigger] children[k]) as int].parent is None
}

/// What is wrong with a list of children for a new node, if anything: one of
/// them is no node of the graph, or else one of them has a parent, or else
/// one of them occurs twice.
pub open spec fn children_fault(tree: Seq<NodeModel>, children: Seq<NodeId>) -> Option<SceneError> {
    if !all_known(tree, children) {
        Some(SceneError::UnknownNode)
    } else if !all_orphans(tree, children) {
        Some(SceneError::AlreadyAttached)
    } else if !children.no_duplicates() {
        Some(SceneError::DuplicateChild)
    } else {
        None
    }
}

/// The shape of a graph after a node of the given kind has been added over
/// the given children: the new node comes last and has no parent, and the
/// children have it as their parent.
pub open spec fn adopted(tree: Seq<NodeModel>, kind: NodeKind, children: Seq<NodeId>) -> Seq<
    NodeModel,
> {
    Seq::new(
        tree.len() + 1,
        |i: int|
            if i == tree.len() {
                NodeModel { kind, parent: None, children }
            } else if children.contains(i as usize) {
                NodeModel { parent: Some(tree.len() as usize), ..tree[i] }
            } else {
                tree[i]
            },
    )
}

/// Adding a node over children that are nodes of the graph, have no parent
/// and are named once keeps a forest a forest.
pub proof fn lemma_adopted_tree_like(tree: Seq<NodeModel>, kind: NodeKind, children: Seq<NodeId>)
    requires
        tree_like(tree),
        tree.len() < usize::MAX,
        children_fault(tree, children) is None,
        arity_fits(kind, children.len()),
    ensures
        tree_like(adopted(tree, kind, children)),
{
    let after = adopted(tree, kind, children);
    let id = tree.len() as int;
    assert forall|i: int| 0 <= i < after.len() implies #[trigger] node_fits(after, i) by {
        if i == id {
            assert(after[i].children == children);
            assert forall|k: int| 0 <= k < children.len() implies (#[trigger] children[k]) < i
                && after[children[k] as int].parent == Some(i as usize) by {
                assert(children[k] < tree.len());
                assert(children.contains(children[k]));
            }
        } else {
            assert(node_fits(tree, i));
            assert(after[i].children == tree[i].children);
            assert(after[i].kind == tree[i].kind);
            assert forall|k: int| 0 <= k < tree[i].children.len() implies (
            #[trigger] tree[i].children[k]) < i && after[tree[i].children[k] as int].parent == Some(
                i as usize,
            ) by {
                let c = tree[i].children[k];
                assert(tree[c as int].parent == Some(i as usize));
                if children.contains(c) {
                    let j = choose|j: int| 0 <= j < children.len() && children[j] == c;
                    assert(tree[children[j] as int].parent is None);
                }
            }
            if children.contains(i as usize) {
                assert(after[i].parent == Some(id as usize));
                assert(after[id].children.contains(i as usize));
            } else {
                assert(after[i].parent == tree[i].parent);
                match tree[i].parent {
                    Some(p) => {
                        assert(after[p as int].children == tree[p as int].children);
                    },
                    None => {},
                }
            }
        }
    }
}

/// The parents of a graph while the first `done` children of a new node at
/// `id` have been given their parent.
spec fn parents_marked(
    parents: Seq<Option<NodeId>>,
    children: Seq<NodeId>,
    done: int,
    id: NodeId,
) -> Seq<Option<NodeId>> {
    Seq::new(
        parents.len(),
        |i: int|
            if children.take(done).contains(i as usize) {
                Some(id)
            } else {
                parents[i]
            },
    )
}

proof fn lemma_mark_next(
    parents: Seq<Option<NodeId>>,
    children: Seq<NodeId>,
    done: int,
    id: NodeId,
)
    requires
        0 <= done < children.len(),
        children[done] < parents.len(),
        parents.len() <= usize::MAX,
    ensures
        parents_marked(parents, children, done, id).update(children[done] as int, Some(id))
            =~= parents_marked(parents, children, done + 1, id),
{
    let before = children.take(done);
    let after = children.take(done + 1);
    assert(after =~= before.push(children[done]));
    assert forall|x: usize| #[trigger] after.contains(x) == (before.contains(x) || children[done] == x) by {
        if before.contains(x) {
            let j = choose|j: int| 0 <= j < before.len() && before[j] == x;
            assert(after[j] == x);
        }
        if children[done] == x {
            assert(after[done] == x);
        }
        if after.contains(x) {
            let j = choose|j: int| 0 <= j < after.len() && after[j] == x;
            if j < done {
                assert(before[j] == x);
            }
        }
    }
    let marked = parents_marked(parents, children, done, id).update(children[done] as int, Some(id));
    let next = parents_marked(parents, children, done + 1, id);
    assert forall|i: int| 0 <= i < parents.len() implies marked[i] == next[i] by {
        let x = i as usize;
        assert(after.contains(x) == (before.contains(x) || children[done] == x));
    }
}

/// A tree of render nodes, or several.
pub struct SceneGraph<V, M: Material> {
    nodes: Vec<Node<V, M>>,
    parents: Vec<Option<NodeId>>,
    children: Vec<Vec<NodeId>>,
}

impl<V, M: Material> View for SceneGraph<V, M> {
    type V = Seq<NodeModel>;

    closed spec fn view(&self) -> Seq<NodeModel> {
        Seq::new(
            self.nodes@.len(),
            |i: int|
                NodeModel {
                    kind: self.nodes@[i].spec_kind(),
                    parent: self.parents@[i],
                    children: self.children@[i]@,
                },
        )
    }
}

impl<V, M: Material> SceneGraph<V, M> {
    /// The node at a place of the graph.
    pub closed spec fn node_at(&self, id: int) -> Node<V, M> {
        self.nodes@[id]
    }

    /// A transform at `i` has the child it names for its only child.
    pub closed spec fn payload_fits(&self, i: int) -> bool {
        match self.nodes@[i] {
            Node::Transform(transform) => self.children@[i]@ == seq![transform.spec_child()],
            _ => true,
        }
    }

    /// The graph is a forest, and every transform has the child it names.
    pub closed spec fn wf(&self) -> bool {
        &&& self.parents@.len() == self.nodes@.len()
        &&& self.children@.len() == self.nodes@.len()
        &&& tree_like(self@)
        &&& forall|i: int| 0 <= i < self.nodes@.len() ==> #[trigger] self.payload_fits(i)
    }

    /// What `wf` says of the node at `id`.
    pub proof fn lemma_wf(&self, id: int)
        requires
            self.wf(),
            0 <= id < self@.len(),
        ensures
            tree_like(self@),
            node_fits(self@, id),
            self.node_at(id).spec_kind() == self@[id].kind,
            match self.node_at(id) {
                Node::Transform(transform) => self@[id].children == seq![transform.spec_child()],
                _ => true,
            },
    {
        assert(node_fits(self@, id));
        assert(self.payload_fits(id));
    }

    pub fn new() -> (graph: SceneGraph<V, M>)
        ensures
            graph@ == Seq::<NodeModel>::empty(),
            graph.wf(),
    {
        let graph = SceneGraph { nodes: Vec::new(), parents: Vec::new(), children: Vec::new() };
        proof {
            assert(graph@ =~= Seq::<NodeModel>::empty());
        }
        graph
    }

    /// The number of nodes.
    pub fn len(&self) -> (len: usize)
        ensures
            len == self@.len(),
    {
        self.nodes.len()
    }

    /// The node at `id`, if there is one.
    pub fn get(&self, id: NodeId) -> (node: Option<&Node<V, M>>)
        ensures
            node is Some <==> id < self@.len(),
            node matches Some(found) ==> *found == self.node_at(id as int),
    {
        if id < self.nodes.len() {
            Some(&self.nodes[id])
        } else {
            None
        }
    }

    /// The kind of the node at `id`.
    pub fn kind_of(&self, id: NodeId) -> (kind: NodeKind)
        requires
            id < self@.len(),
        ensures
            kind == self@[id as int].kind,
            kind == self.node_at(id as int).spec_kind(),
    {
        self.nodes[id].kind()
    }

    /// The parent of the node at `id`; none for a root.
    pub fn parent_of(&self, id: NodeId) -> (parent: Option<NodeId>)
        requires
            self.wf(),
            id < self@.len(),
        ensures
            parent == self@[id as int].parent,
            parent matches Some(p) ==> id < p < self@.len(),
    {
        proof {
            self.lemma_wf(id as int);
        }
        self.parents[id]
    }

    /// The children of the node at `id`, in order: none for an image or a
    /// shadow, the wrapped child alone for a transform.
    pub fn children_of(&self, id: NodeId) -> (children: &Vec<NodeId>)
        requires
            self.wf(),
            id < self@.len(),
        ensures
            children@ == self@[id as int].children,
            forall|k: int| 0 <= k < children@.len() ==> #[trigger] children@[k] < id,
            self@[id as int].kind == NodeKind::Image || self@[id as int].kind == NodeKind::Shadow
                ==> children@.len() == 0,
            match self.node_at(id as int) {
                Node::Transform(transform) => children@ == seq![transform.spec_child()],
                _ => true,
            },
    {
        proof {
            self.lemma_wf(id as int);
        }
        &self.children[id]
    }

    /// Whether the list can be the children of a new node.
    pub fn check_children(&self, children: &Vec<NodeId>) -> (fault: Option<SceneError>)
        requires
            self.wf(),
        ensures
            fault == children_fault(self@, children@),
    {
        let mut k: usize = 0;
        while k < children.len()
            invariant
                k <= children.len(),
                self.nodes@.len() == self@.len(),
                forall|j: int| 0 <= j < k ==> #[trigger] children@[j] < self@.len(),
            decreases children.len() - k,
        {
            if children[k] >= self.nodes.len() {
                proof {
                    assert(!(children@[k as int] < self@.len()));
                    assert(!all_known(self@, children@));
                }
                return Some(SceneError::UnknownNode);
            }
            k += 1;
        }
        assert(all_known(self@, children@));
        k = 0;
        while k < children.len()
            invariant
                k <= children.len(),
                self.nodes@.len() == self@.len(),
                self.parents@.len() == self@.len(),
                forall|i: int| 0 <= i < self@.len() ==> (#[trigger] self@[i]).parent == self.parents@[i],
                all_known(self@, children@),
                forall|j: int| 0 <= j < k ==> self@[(#[trigger] children@[j]) as int].parent is None,
            decreases children.len() - k,
        {
            assert(children@[k as int] < self@.len());
            if self.parents[children[k]].is_some() {
                proof {
                    assert(self@[children@[k as int] as int].parent is Some);
                    assert(!all_orphans(self@, children@));
                }
                return Some(SceneError::AlreadyAttached);
            }
            k += 1;
        }
        assert(all_orphans(self@, children@));
        k = 0;
        while k < children.len()
            invariant
                k <= children.len(),
                all_known(self@, children@),
                all_orphans(self@, children@),
                forall|a: int, b: int| 0 <= a < b < k ==> children@[a] != children@[b],
            decreases children.len() - k,
        {
            let mut a: usize = 0;
            while a < k
                invariant
                    a <= k < children.len(),
                    all_known(self@, children@),
                    all_orphans(self@, children@),
                    forall|j: int| 0 <= j < a ==> children@[j] != children@[k as int],
                decreases k - a,
            {
                if children[a] == children[k] {
                    proof {
                        assert(children@[a as int] == children@[k as int] && a != k);
                        assert(!children@.no_duplicates());
                    }
                    return Some(SceneError::DuplicateChild);
                }
                a += 1;
            }
            k += 1;
        }
        proof {
            assert forall|a: int, b: int|
                0 <= a < children@.len() && 0 <= b < children@.len() && a != b implies children@[a]
                != children@[b] by {
                if a < b {
                } else {
                    assert(children@[b] != children@[a]);
                }
            }
            assert(children@.no_duplicates());
        }
        None
    }

    /// Adds a node over children that `check_children` found no fault with.
    fn insert(&mut self, node: Node<V, M>, children: Vec<NodeId>) -> (id: NodeId)
        requires
            old(self).wf(),
            old(self)@.len() < usize::MAX,
            children_fault(old(self)@, children@) is None,
            arity_fits(node.spec_kind(), children@.len()),
            node matches Node::Transform(transform) ==> children@ == seq![transform.spec_child()],
        ensures
            id == old(self)@.len(),
            final(self)@ == adopted(old(self)@, node.spec_kind(), children@),
            final(self).node_at(id as int) == node,
            forall|i: int| 0 <= i < id ==> final(self).node_at(i) == old(self).node_at(i),
            final(self).wf(),
    {
        let id = self.nodes.len();
        let ghost before = self@;
        let ghost kind = node.spec_kind();
        let ghost old_nodes = self.nodes@;
        let ghost old_parents = self.parents@;
        let ghost old_children = self.children@;
        proof {
            assert(all_known(before, children@));
            assert(parents_marked(old_parents, children@, 0, id) =~= old_parents) by {
                assert(children@.take(0).len() == 0);
            }
            assert forall|i: int| 0 <= i < id implies old(self).payload_fits(i) by {}
        }
        let mut k: usize = 0;
        while k < children.len()
            invariant
                k <= children.len(),
                id == old_nodes.len(),
                self.nodes@ == old_nodes,
                self.children@ == old_children,
                old_parents.len() == old_nodes.len(),
                before.len() == old_nodes.len(),
                all_known(before, children@),
                self.parents@ == parents_marked(old_parents, children@, k as int, id),
            decreases children.len() - k,
        {
            let child = children[k];
            assert(children@[k as int] < before.len());
            proof {
                lemma_mark_next(old_parents, children@, k as int, id);
            }
            self.parents.set(child, Some(id));
            k += 1;
        }
        self.nodes.push(node);
        self.parents.push(None);
        self.children.push(children);
        proof {
            let after = adopted(before, kind, children@);
            assert(children@.take(children@.len() as int) =~= children@);
            assert(self@.len() == after.len());
            assert forall|i: int| 0 <= i < after.len() implies self@[i] == after[i] by {
                if i < id {
                    assert(self.nodes@[i] == old_nodes[i]);
                    assert(self.children@[i] == old_children[i]);
                    assert(self.parents@[i] == parents_marked(
                        old_parents,
                        children@,
                        children@.len() as int,
                        id,
                    )[i]);
                    assert(before[i].parent == old_parents[i]);
                }
            }
            assert(self@ =~= after);
            lemma_adopted_tree_like(before, kind, children@);
            assert forall|i: int| 0 <= i < self.nodes@.len() implies #[trigger] self.payload_fits(
                i,
            ) by {
                if i < id {
                    assert(old(self).payload_fits(i));
                    assert(self.nodes@[i] == old_nodes[i]);
                    assert(self.children@[i] == old_children[i]);
                }
            }
        }
        id
    }

    /// Adds an image. It becomes a root without children.
    pub fn add_image(&mut self, image: Image) -> (id: NodeId)
        requires
            old(self).wf(),
            old(self)@.len() < usize::MAX,
        ensures
            id == old(self)@.len(),
            final(self)@ == adopted(old(self)@, NodeKind::Image, Seq::<NodeId>::empty()),
            final(self).node_at(id as int) == Node::<V, M>::Image(image),
            forall|i: int| 0 <= i < id ==> final(self).node_at(i) == old(self).node_at(i),
            final(self).wf(),
    {
        self.insert(Node::Image(image), Vec::new())
    }

    /// Adds a shadow. It becomes a root without children.
    pub fn add_shadow(&mut self, shadow: Shadow) -> (id: NodeId)
        requires
            old(self).wf(),
            old(self)@.len() < usize::MAX,
        ensures
            id == old(self)@.len(),
            final(self)@ == adopted(old(self)@, NodeKind::Shadow, Seq::<NodeId>::empty()),
            final(self).node_at(id as int) == Node::<V, M>::Shadow(shadow),
            forall|i: int| 0 <= i < id ==> final(self).node_at(i) == old(self).node_at(i),
            final(self).wf(),
    {
        self.insert(Node::Shadow(shadow), Vec::new())
    }

    /// Adds geometry over the given children, which must be roots of the
    /// graph, each named once. The geometry becomes a root and the parent of
    /// its children. Where the children will not do, the graph stays as it is.
    pub fn add_geometry(&mut self, geometry: Geometry<V, M>, children: Vec<NodeId>) -> (added:
        Result<NodeId, SceneError>)
        requires
            old(self).wf(),
            old(self)@.len() < usize::MAX,
        ensures
            final(self).wf(),
            match added {
                Ok(id) => {
                    &&& children_fault(old(self)@, children@) is None
                    &&& id == old(self)@.len()
                    &&& final(self)@ == adopted(old(self)@, NodeKind::Geometry, children@)
                    &&& final(self).node_at(id as int) == Node::Geometry(geometry)
                    &&& forall|i: int|
                        0 <= i < id ==> final(self).node_at(i) == old(self).node_at(i)
                },
                Err(error) => {
                    &&& children_fault(old(self)@, children@) == Some(error)
                    &&& *final(self) == *old(self)
                },
            },
    {
        match self.check_children(&children) {
            Some(error) => Err(error),
            None => Ok(self.insert(Node::Geometry(geometry), children)),
        }
    }

    /// Adds a transform over the child it names, which must be a root of the
    /// graph. The transform becomes a root and the parent of its child. Where
    /// the child will not do, the graph stays as it is.
    pub fn add_transform(&mut self, transform: Transform<NodeId>) -> (added: Result<
        NodeId,
        SceneError,
    >)
        requires
            old(self).wf(),
            old(self)@.len() < usize::MAX,
        ensures
            final(self).wf(),
            match added {
                Ok(id) => {
                    &&& children_fault(old(self)@, seq![transform.spec_child()]) is None
                    &&& id == old(self)@.len()
                    &&& final(self)@ == adopted(
                        old(self)@,
                        NodeKind::Transform,
                        seq![transform.spec_child()],
                    )
                    &&& final(self).node_at(id as int) == Node::<V, M>::Transform(transform)
                    &&& forall|i: int|
                        0 <= i < id ==> final(self).node_at(i) == old(self).node_at(i)
                },
                Err(error) => {
                    &&& children_fault(old(self)@, seq![transform.spec_child()]) == Some(error)
                    &&& *final(self) == *old(self)
                },
            },
    {
        let mut children: Vec<NodeId> = Vec::new();
        children.push(*transform.child());
        proof {
            assert(children@ =~= seq![transform.spec_child()]);
        }
        match self.check_children(&children) {
            Some(error) => Err(error),
            None => Ok(self.insert(Node::Transform(transform), children)),
        }
    }

    /// A handle on the node at `id`, if there is one.
    pub fn node_ref<'a>(&'a self, id: NodeId) -> (node: Option<NodeRef<'a, V, M>>)
        ensures
            node is Some <==> id < self@.len(),
            node matches Some(found) ==> found.spec_graph() == *self && found.spec_id() == id && (
            self.wf() ==> found.attached()),
    {
        if id < self.nodes.len() {
            Some(NodeRef { graph: self, id })
        } else {
            None
        }
    }

    /// Places the node at `id` and the nodes below it, and appends the
    /// placements to `out`.
    fn visit(&self, id: NodeId, chain: &Vec<NodeId>, out: &mut Vec<Placement>)
        requires
            self.wf(),
            id < self@.len(),
        ensures
            placements(final(out)@) == placements(old(out)@) + subtree(self@, id, chain@),
        decreases id,
    {
        let ghost start = placements(out@);
        let kids = self.children_of(id);
        let mut inner = copy_ids(chain);
        out.push(Placement { node: id, transforms: copy_ids(chain) });
        match self.kind_of(id) {
            NodeKind::Transform => {
                inner.push(id);
            },
            _ => {},
        }
        proof {
            assert(inner@ == inner_chain(self@, id, chain@));
            assert(placements(out@) =~= start + seq![(id, chain@)]);
            assert(placements(out@) + below(self@, id, inner@, 0) =~= start + subtree(
                self@,
                id,
                chain@,
            ));
        }
        let mut k: usize = 0;
        while k < kids.len()
            invariant
                self.wf(),
                id < self@.len(),
                kids@ == self@[id as int].children,
                forall|j: int| 0 <= j < kids@.len() ==> #[trigger] kids@[j] < id,
                k <= kids.len(),
                placements(out@) + below(self@, id, inner@, k as nat) == start + subtree(
                    self@,
                    id,
                    chain@,
                ),
            decreases kids.len() - k,
        {
            let ghost so_far = placements(out@);
            let child = kids[k];
            assert(kids@[k as int] < id);
            self.visit(child, &inner, out);
            proof {
                let here = subtree(self@, child, inner@);
                let rest = below(self@, id, inner@, (k + 1) as nat);
                assert(below(self@, id, inner@, k as nat) == here + rest);
                assert((so_far + here) + rest =~= so_far + (here + rest));
            }
            k += 1;
        }
        proof {
            assert(below(self@, id, inner@, k as nat) =~= Seq::<Placed>::empty());
            assert(placements(out@) + Seq::<Placed>::empty() =~= placements(out@));
        }
    }

    /// The nodes of the tree below `root`, `root` first and every node before
    /// its children, each with the transforms that apply to it: those of the
    /// transform nodes on the way from `root` down to it, outermost first.
    pub fn traverse(&self, root: NodeId) -> (order: Vec<Placement>)
        requires
            self.wf(),
            root < self@.len(),
        ensures
            placements(order@) == subtree(self@, root, Seq::<NodeId>::empty()),
    {
        let mut order: Vec<Placement> = Vec::new();
        let chain: Vec<NodeId> = Vec::new();
        proof {
            assert(placements(order@) =~= Seq::<Placed>::empty());
        }
        self.visit(root, &chain, &mut order);
        proof {
            assert(Seq::<Placed>::empty() + subtree(self@, root, chain@) =~= subtree(
                self@,
                root,
                chain@,
            ));
        }
        order
    }

    /// The matrix of the transform at `id`; none if the node is no transform.
    pub fn matrix_of(&self, id: NodeId) -> (matrix: Option<&Matrix>)
        requires
            id < self@.len(),
        ensures
            match self.node_at(id as int) {
                Node::Transform(transform) => matrix == Some(&transform.spec_transform()),
                _ => matrix is None,
            },
    {
        match &self.nodes[id] {
            Node::Transform(transform) => Some(transform.transform()),
            _ => None,
        }
    }
}

fn copy_ids(ids: &Vec<NodeId>) -> (copy: Vec<NodeId>)
    ensures
        copy@ == ids@,
{
    let mut copy: Vec<NodeId> = Vec::new();
    let mut i: usize = 0;
    while i < ids.len()
        invariant
            i <= ids.len(),
            copy@ == ids@.take(i as int),
        decreases ids.len() - i,
    {
        copy.push(ids[i]);
        proof {
            assert(ids@.take(i + 1) =~= ids@.take(i as int).push(ids@[i as int]));
        }
        i += 1;
    }
    proof {
        assert(ids@.take(i as int) =~= ids@);
    }
    copy
}

/// A node handle: a graph and the place of one of its nodes.
pub struct NodeRef<'a, V, M: Material> {
    graph: &'a SceneGraph<V, M>,
    id: NodeId,
}

impl<'a, V, M: Material> NodeRef<'a, V, M> {
    /// The graph the node belongs to.
    pub closed spec fn spec_graph(&self) -> SceneGraph<V, M> {
        *self.graph
    }

    /// The place of the node in its graph.
    pub closed spec fn spec_id(&self) -> NodeId {
        self.id
    }

    /// A handle is attached exactly if its graph is well formed and holds
    /// the node.
    pub proof fn lemma_attached(&self)
        ensures
            self.attached() <==> self.spec_graph().wf() && self.spec_id() < self.spec_graph()@.len(),
            self.parent_node() matches Some(parent) ==> parent.spec_graph() == self.spec_graph()
                && self.spec_graph()@[self.spec_id() as int].parent == Some(parent.spec_id()),
            self.parent_node() is None <==> self.spec_graph()@[self.spec_id() as int].parent is None,
            self.child_nodes().len() == self.spec_graph()@[self.spec_id() as int].children.len(),
            forall|k: int|
                0 <= k < self.child_nodes().len() ==> (#[trigger] self.child_nodes()[k]).spec_graph()
                    == self.spec_graph() && self.child_nodes()[k].spec_id()
                    == self.spec_graph()@[self.spec_id() as int].children[k],
    {
    }

    #[verifier::when_used_as_spec(spec_id)]
    pub fn id(&self) -> (id: NodeId)
        ensures
            id == self.spec_id(),
    {
        self.id
    }

    pub fn graph(&self) -> (graph: &'a SceneGraph<V, M>)
        ensures
            *graph == self.spec_graph(),
    {
        self.graph
    }

    /// The node the handle is on.
    pub fn node(&self) -> (node: &'a Node<V, M>)
        requires
            self.attached(),
        ensures
            *node == self.spec_graph().node_at(self.spec_id() as int),
    {
        &self.graph.nodes[self.id]
    }
}

impl<'a, V, M: Material> RenderNode for NodeRef<'a, V, M> {
    closed spec fn attached(&self) -> bool {
        self.graph.wf() && self.id < self.graph@.len()
    }

    closed spec fn parent_node(&self) -> Option<Self> {
        match self.graph@[self.id as int].parent {
            Some(parent) => Some(NodeRef { graph: self.graph, id: parent }),
            None => None,
        }
    }

    closed spec fn child_nodes(&self) -> Seq<Self> {
        Seq::new(
            self.graph@[self.id as int].children.len(),
            |k: int| NodeRef { graph: self.graph, id: self.graph@[self.id as int].children[k] },
        )
    }

    fn parent(&self) -> (parent: Option<Self>) {
        match self.graph.parent_of(self.id) {
            Some(parent) => Some(NodeRef { graph: self.graph, id: parent }),
            None => None,
        }
    }

    /// The children of an image or of a shadow are none; the children of a
    /// transform are the one node it wraps.
    fn children(&self) -> (children: Vec<Self>)
        ensures
            self.spec_graph()@[self.spec_id() as int].kind == NodeKind::Image
                || self.spec_graph()@[self.spec_id() as int].kind == NodeKind::Shadow
                ==> children@.len() == 0,
            match self.spec_graph().node_at(self.spec_id() as int) {
                Node::Transform(transform) => children@.len() == 1 && children@[0].spec_graph()
                    == self.spec_graph() && children@[0].spec_id() == transform.spec_child(),
                _ => true,
            },
    {
        let ids = self.graph.children_of(self.id);
        let mut children: Vec<Self> = Vec::new();
        let mut k: usize = 0;
        while k < ids.len()
            invariant
                k <= ids.len(),
                self.attached(),
                ids@ == self.graph@[self.id as int].children,
                forall|j: int| 0 <= j < ids@.len() ==> #[trigger] ids@[j] < self.id,
                children@.len() == k,
                forall|j: int|
                    0 <= j < k ==> (#[trigger] children@[j]).graph == self.graph && children@[j].id
                        == ids@[j],
            decreases ids.len() - k,
        {
            children.push(NodeRef { graph: self.graph, id: ids[k] });
            k += 1;
        }
        proof {
            assert(children@ =~= self.child_nodes());
            assert forall|i: int| 0 <= i < children@.len() implies (
            #[trigger] children@[i]).attached() by {
                assert(ids@[i] < self.id);
            }
        }
        children
    }
}

/// A node of a traversal with the transforms that apply to it, by the places
/// of the transform nodes, outermost first.
#[derive(Debug)]
pub struct Placement {
    pub node: NodeId,
    pub transforms: Vec<NodeId>,
}

/// A placement as a mathematical value.
pub type Placed = (NodeId, Seq<NodeId>);

pub open spec fn placements(order: Seq<Placement>) -> Seq<Placed> {
    Seq::new(order.len(), |i: int| (order[i].node, order[i].transforms@))
}

/// The transforms that apply below the node at `id`, given those that apply
/// to the node itself: a transform adds itself at the end.
pub open spec fn inner_chain(tree: Seq<NodeModel>, id: NodeId, chain: Seq<NodeId>) -> Seq<NodeId> {
    if tree[id as int].kind == NodeKind::Transform {
        chain.push(id)
    } else {
        chain
    }
}

/// The traversal of the tree below `id`, entered with the transforms in
/// `chain`: the node itself with that chain, then its children in order,
/// each with all that is below it.
pub open spec fn subtree(tree: Seq<NodeModel>, id: NodeId, chain: Seq<NodeId>) -> Seq<Placed>
    decreases id, 1nat, 0nat,
{
    seq![(id, chain)] + below(tree, id, inner_chain(tree, id, chain), 0)
}

/// The traversal of the children of `parent` from the one at `from` on.
pub open spec fn below(tree: Seq<NodeModel>, parent: NodeId, chain: Seq<NodeId>, from: nat) -> Seq<
    Placed,
>
    decreases parent, 0nat, tree[parent as int].children.len() - from,
{
    if from < tree[parent as int].children.len() {
        let child = tree[parent as int].children[from as int];
        let here = if child < parent {
            subtree(tree, child, chain)
        } else {
            Seq::<Placed>::empty()
        };
        here + below(tree, parent, chain, from + 1)
    } else {
        Seq::<Placed>::empty()
    }
}

/// Whatever a traversal is entered with stays in front: every node below
/// carries the transforms of the nodes above, in their order, before its own.
pub proof fn lemma_subtree_keeps_chain(tree: Seq<NodeModel>, id: NodeId, chain: Seq<NodeId>)
    ensures
        forall|i: int|
            0 <= i < subtree(tree, id, chain).len() ==> chain.is_prefix_of(
                (#[trigger] subtree(tree, id, chain)[i]).1,
            ),
    decreases id, 1nat, 0nat,
{
    let inner = inner_chain(tree, id, chain);
    lemma_below_keeps_chain(tree, id, inner, 0);
    let rest = below(tree, id, inner, 0);
    assert(chain.is_prefix_of(inner)) by {
        assert(inner.subrange(0, chain.len() as int) =~= chain);
    }
    assert forall|i: int| 0 <= i < subtree(tree, id, chain).len() implies chain.is_prefix_of(
        (#[trigger] subtree(tree, id, chain)[i]).1,
    ) by {
        if i == 0 {
            assert(chain.subrange(0, chain.len() as int) =~= chain);
        } else {
            let entry = rest[i - 1];
            assert(subtree(tree, id, chain)[i] == entry);
            assert(inner.is_prefix_of(entry.1));
            assert(entry.1.subrange(0, chain.len() as int) =~= chain) by {
                assert(entry.1.subrange(0, inner.len() as int) == inner);
                assert forall|j: int| 0 <= j < chain.len() implies entry.1[j] == chain[j] by {
                    assert(entry.1.subrange(0, inner.len() as int)[j] == inner[j]);
                }
            }
        }
    }
}

proof fn lemma_below_keeps_chain(
    tree: Seq<NodeModel>,
    parent: NodeId,
    chain: Seq<NodeId>,
    from: nat,
)
    ensures
        forall|i: int|
            0 <= i < below(tree, parent, chain, from).len() ==> chain.is_prefix_of(
                (#[trigger] below(tree, parent, chain, from)[i]).1,
            ),
    decreases parent, 0nat, tree[parent as int].children.len() - from,
{
    if from < tree[parent as int].children.len() {
        let child = tree[parent as int].children[from as int];
        let here = if child < parent {
            subtree(tree, child, chain)
        } else {
            Seq::<Placed>::empty()
        };
        if child < parent {
            lemma_subtree_keeps_chain(tree, child, chain);
        }
        lemma_below_keeps_chain(tree, parent, chain, from + 1);
        let rest = below(tree, parent, chain, from + 1);
        assert forall|i: int|
            0 <= i < below(tree, parent, chain, from).len() implies chain.is_prefix_of(
            (#[trigger] below(tree, parent, chain, from)[i]).1,
        ) by {
            if i < here.len() {
                assert(below(tree, parent, chain, from)[i] == here[i]);
            } else {
                assert(below(tree, parent, chain, from)[i] == rest[i - here.len()]);
            }
        }
    }
}

/// The transforms among the ancestors of the node at `id`, from `root` down
/// and `root` included, outermost first. Empty where `id` is `root` or does
/// not lie below it.
pub open spec fn ancestor_chain(tree: Seq<NodeModel>, id: NodeId, root: NodeId) -> Seq<NodeId>
    decreases root - id,
{
    if id < root && id < tree.len() {
        match tree[id as int].parent {
            Some(parent) => if id < parent <= root {
                inner_chain(tree, parent, ancestor_chain(tree, parent, root))
            } else {
                Seq::<NodeId>::empty()
            },
            None => Seq::<NodeId>::empty(),
        }
    } else {
        Seq::<NodeId>::empty()
    }
}

/// What a traversal accumulates are the transforms of the ancestors: every
/// node that the traversal from `root` places carries the transforms of
/// exactly those transform nodes that enclose it up to `root`, outermost
/// first.
pub proof fn lemma_traversal_accumulates_ancestors(tree: Seq<NodeModel>, root: NodeId)
    requires
        tree_like(tree),
        root < tree.len(),
    ensures
        forall|i: int|
            0 <= i < subtree(tree, root, Seq::<NodeId>::empty()).len() ==> (#[trigger] subtree(
                tree,
                root,
                Seq::<NodeId>::empty(),
            )[i]).1 == ancestor_chain(
                tree,
                subtree(tree, root, Seq::<NodeId>::empty())[i].0,
                root,
            ),
{
    assert(ancestor_chain(tree, root, root) == Seq::<NodeId>::empty());
    lemma_subtree_chains(tree, root, root);
}

proof fn lemma_subtree_chains(tree: Seq<NodeModel>, id: NodeId, root: NodeId)
    requires
        tree_like(tree),
        id <= root < tree.len(),
    ensures
        forall|i: int|
            0 <= i < subtree(tree, id, ancestor_chain(tree, id, root)).len() ==> (#[trigger] subtree(
                tree,
                id,
                ancestor_chain(tree, id, root),
            )[i]).1 == ancestor_chain(
                tree,
                subtree(tree, id, ancestor_chain(tree, id, root))[i].0,
                root,
            ),
    decreases id, 1nat, 0nat,
{
    let chain = ancestor_chain(tree, id, root);
    let inner = inner_chain(tree, id, chain);
    lemma_below_chains(tree, id, root, 0);
    let whole = subtree(tree, id, chain);
    let rest = below(tree, id, inner, 0);
    assert forall|i: int| 0 <= i < whole.len() implies (#[trigger] whole[i]).1 == ancestor_chain(
        tree,
        whole[i].0,
        root,
    ) by {
        if i > 0 {
            assert(whole[i] == rest[i - 1]);
        }
    }
}

proof fn lemma_below_chains(tree: Seq<NodeModel>, parent: NodeId, root: NodeId, from: nat)
    requires
        tree_like(tree),
        parent <= root < tree.len(),
    ensures
        forall|i: int|
            0 <= i < below(
                tree,
                parent,
                inner_chain(tree, parent, ancestor_chain(tree, parent, root)),
                from,
            ).len() ==> (#[trigger] below(
                tree,
                parent,
                inner_chain(tree, parent, ancestor_chain(tree, parent, root)),
                from,
            )[i]).1 == ancestor_chain(
                tree,
                below(
                    tree,
                    parent,
                    inner_chain(tree, parent, ancestor_chain(tree, parent, root)),
                    from,
                )[i].0,
                root,
            ),
    decreases parent, 0nat, tree[parent as int].children.len() - from,
{
    let inner = inner_chain(tree, parent, ancestor_chain(tree, parent, root));
    if from < tree[parent as int].children.len() {
        assert(node_fits(tree, parent as int));
        let child = tree[parent as int].children[from as int];
        assert(child < parent);
        assert(tree[child as int].parent == Some(parent));
        assert(ancestor_chain(tree, child, root) == inner);
        lemma_subtree_chains(tree, child, root);
        lemma_below_chains(tree, parent, root, from + 1);
        let here = subtree(tree, child, inner);
        let rest = below(tree, parent, inner, from + 1);
        let all = below(tree, parent, inner, from);
        assert(all == here + rest);
        assert forall|i: int| 0 <= i < all.len() implies (#[trigger] all[i]).1 == ancestor_chain(
            tree,
            all[i].0,
            root,
        ) by {
            if i < here.len() {
                assert(all[i] == here[i]);
            } else {
                assert(all[i] == rest[i - here.len()]);
            }
        }
    }
}

/// The node at `id` lies in the tree below `root`: it is `root`, or its
/// parent lies in that tree.
pub open spec fn lies_below(tree: Seq<NodeModel>, id: NodeId, root: NodeId) -> bool
    decreases root - id,
{
    id == root || (id < root && id < tree.len() && match tree[id as int].parent {
        Some(parent) => id < parent <= root && lies_below(tree, parent, root),
        None => false,
    })
}

/// A node below `root` that is not `root` lies below one of its children.
proof fn lemma_child_on_the_way(tree: Seq<NodeModel>, id: NodeId, root: NodeId) -> (k: int)
    requires
        tree_like(tree),
        root < tree.len(),
        lies_below(tree, id, root),
        id != root,
    ensures
        0 <= k < tree[root as int].children.len(),
        lies_below(tree, id, tree[root as int].children[k]),
    decreases root - id,
{
    let parent = tree[id as int].parent->0;
    assert(node_fits(tree, id as int));
    if parent == root {
        let k = choose|k: int|
            0 <= k < tree[root as int].children.len() && tree[root as int].children[k] == id;
        k
    } else {
        let k = lemma_child_on_the_way(tree, parent, root);
        let child = tree[root as int].children[k];
        assert(parent <= child);
        k
    }
}

/// What the traversal of a child holds, the traversal of the children holds.
proof fn lemma_below_holds_child(
    tree: Seq<NodeModel>,
    parent: NodeId,
    chain: Seq<NodeId>,
    from: nat,
    k: int,
    j: int,
) -> (i: int)
    requires
        from <= k < tree[parent as int].children.len(),
        tree[parent as int].children[k] < parent,
        0 <= j < subtree(tree, tree[parent as int].children[k], chain).len(),
    ensures
        0 <= i < below(tree, parent, chain, from).len(),
        below(tree, parent, chain, from)[i] == subtree(
            tree,
            tree[parent as int].children[k],
            chain,
        )[j],
    decreases k - from,
{
    let child = tree[parent as int].children[from as int];
    let here = if child < parent {
        subtree(tree, child, chain)
    } else {
        Seq::<Placed>::empty()
    };
    let rest = below(tree, parent, chain, from + 1);
    assert(below(tree, parent, chain, from) == here + rest);
    if from == k {
        j
    } else {
        let further = lemma_below_holds_child(tree, parent, chain, from + 1, k, j);
        here.len() + further
    }
}

/// A traversal leaves nothing out: it places every node of the tree below
/// its root.
pub proof fn lemma_traversal_reaches_all_below(
    tree: Seq<NodeModel>,
    id: NodeId,
    root: NodeId,
    chain: Seq<NodeId>,
) -> (i: int)
    requires
        tree_like(tree),
        root < tree.len(),
        lies_below(tree, id, root),
    ensures
        0 <= i < subtree(tree, root, chain).len(),
        subtree(tree, root, chain)[i].0 == id,
    decreases root,
{
    if id == root {
        0
    } else {
        let k = lemma_child_on_the_way(tree, id, root);
        let child = tree[root as int].children[k];
        assert(node_fits(tree, root as int));
        assert(child < root);
        let inner = inner_chain(tree, root, chain);
        let j = lemma_traversal_reaches_all_below(tree, id, child, inner);
        let i = lemma_below_holds_child(tree, root, inner, 0, k, j);
        i + 1
    }
}

/// A transform applies to every node below the node it wraps: whatever lies
/// below the child of a transform has, among the transforms of its ancestors
/// up to `root`, first those of the transform and then the transform itself.
pub proof fn lemma_transform_applies_below(
    tree: Seq<NodeModel>,
    transform: NodeId,
    id: NodeId,
    root: NodeId,
)
    requires
        tree_like(tree),
        root < tree.len(),
        transform <= root,
        tree[transform as int].kind == NodeKind::Transform,
        lies_below(tree, id, tree[transform as int].children[0]),
    ensures
        ancestor_chain(tree, transform, root).push(transform).is_prefix_of(
            ancestor_chain(tree, id, root),
        ),
    decreases tree[transform as int].children[0] - id,
{
    assert(node_fits(tree, transform as int));
    let wrapped = tree[transform as int].children[0];
    let expected = ancestor_chain(tree, transform, root).push(transform);
    if id == wrapped {
        assert(ancestor_chain(tree, id, root) == expected);
        assert(expected.subrange(0, expected.len() as int) =~= expected);
    } else {
        let parent = tree[id as int].parent->0;
        lemma_transform_applies_below(tree, transform, parent, root);
        let above = ancestor_chain(tree, parent, root);
        let here = ancestor_chain(tree, id, root);
        assert(here == inner_chain(tree, parent, above));
        assert(here.subrange(0, expected.len() as int) =~= expected) by {
            assert(above.subrange(0, expected.len() as int) == expected);
            assert forall|j: int| 0 <= j < expected.len() implies here[j] == expected[j] by {
                assert(above.subrange(0, expected.len() as int)[j] == above[j]);
            }
        }
    }
}

/// The matrix of a transform applies to every node of the subtree it wraps:
/// the traversal of a transform is the transform itself followed by the
/// traversal of its child, entered with the transform added to the chain, and
/// every node placed there carries the chain of the transform and then the
/// transform.
pub proof fn lemma_transform_applies_to_subtree(
    tree: Seq<NodeModel>,
    transform: NodeId,
    chain: Seq<NodeId>,
)
    requires
        tree_like(tree),
        transform < tree.len(),
        tree[transform as int].kind == NodeKind::Transform,
    ensures
        tree[transform as int].children.len() == 1,
        subtree(tree, transform, chain) == seq![(transform, chain)] + subtree(
            tree,
            tree[transform as int].children[0],
            chain.push(transform),
        ),
        forall|i: int|
            1 <= i < subtree(tree, transform, chain).len() ==> chain.push(transform).is_prefix_of(
                (#[trigger] subtree(tree, transform, chain)[i]).1,
            ),
{
    assert(node_fits(tree, transform as int));
    let child = tree[transform as int].children[0];
    let inner = chain.push(transform);
    assert(child < transform);
    assert(below(tree, transform, inner, 1) =~= Seq::<Placed>::empty());
    assert(below(tree, transform, inner, 0) =~= subtree(tree, child, inner)) by {
        assert(below(tree, transform, inner, 0) == subtree(tree, child, inner) + below(
            tree,
            transform,
            inner,
            1,
        ));
    }
    lemma_subtree_keeps_chain(tree, child, inner);
    assert forall|i: int|
        1 <= i < subtree(tree, transform, chain).len() implies inner.is_prefix_of(
        (#[trigger] subtree(tree, transform, chain)[i]).1,
    ) by {
        assert(subtree(tree, transform, chain)[i] == subtree(tree, child, inner)[i - 1]);
    }
}

/// Nested transforms compose parent first: below a transform that wraps a
/// transform, the wrapped node and all below it carry the outer transform
/// and then the inner one at the end of their chain, never the other way
/// round.
pub proof fn lemma_nested_transforms_compose(
    tree: Seq<NodeModel>,
    outer: NodeId,
    chain: Seq<NodeId>,
)
    requires
        tree_like(tree),
        outer < tree.len(),
        tree[outer as int].kind == NodeKind::Transform,
        tree[tree[outer as int].children[0] as int].kind == NodeKind::Transform,
    ensures
        ({
            let inner = tree[outer as int].children[0];
            let wrapped = tree[inner as int].children[0];
            &&& inner < outer
            &&& wrapped < inner
            &&& subtree(tree, outer, chain) == seq![(outer, chain), (inner, chain.push(outer))]
                + subtree(tree, wrapped, chain.push(outer).push(inner))
            &&& subtree(tree, outer, chain)[2] == (wrapped, chain.push(outer).push(inner))
            &&& chain.push(outer).push(inner) != chain.push(inner).push(outer)
            &&& forall|i: int|
                2 <= i < subtree(tree, outer, chain).len() ==> chain.push(outer).push(
                    inner,
                ).is_prefix_of((#[trigger] subtree(tree, outer, chain)[i]).1)
        }),
{
    assert(node_fits(tree, outer as int));
    let inner = tree[outer as int].children[0];
    assert(inner < outer);
    assert(node_fits(tree, inner as int));
    let wrapped = tree[inner as int].children[0];
    lemma_transform_applies_to_subtree(tree, outer, chain);
    lemma_transform_applies_to_subtree(tree, inner, chain.push(outer));
    let both = chain.push(outer).push(inner);
    assert(subtree(tree, outer, chain) =~= seq![(outer, chain), (inner, chain.push(outer))]
        + subtree(tree, wrapped, both));
    assert(subtree(tree, wrapped, both)[0] == (wrapped, both));
    assert(both[chain.len() as int] == outer);
    assert(chain.push(inner).push(outer)[chain.len() as int] == inner);
    assert forall|i: int| 2 <= i < subtree(tree, outer, chain).len() implies both.is_prefix_of(
        (#[trigger] subtree(tree, outer, chain)[i]).1,
    ) by {
        assert(subtree(tree, outer, chain)[i] == subtree(tree, inner, chain.push(outer))[i - 1]);
    }
}

} // verus!
