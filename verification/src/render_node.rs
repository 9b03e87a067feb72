use vstd::prelude::*;

verus! {

/// RenderNode trait all render nodes must implement. A render node knows the
/// node that encloses it and the nodes it encloses; it cannot be changed
/// through this trait.
pub trait RenderNode: Sized {
    /// The node belongs to a well-formed tree.
    spec fn attached(&self) -> bool;

    /// The node that encloses this one; none for the root of a tree.
    spec fn parent_node(&self) -> Option<Self>;

    /// The nodes that this one encloses, in order.
    spec fn child_nodes(&self) -> Seq<Self>;

    fn parent(&self) -> (parent: Option<Self>)
        requires
            self.attached(),
        ensures
            parent == self.parent_node(),
            parent matches Some(node) ==> node.attached(),
    ;

    fn children(&self) -> (children: Vec<Self>)
        requires
            self.attached(),
        ensures
            children@ == self.child_nodes(),
            forall|i: int| 0 <= i < children@.len() ==> (#[trigger] children@[i]).attached(),
    ;
}

} // verus!
