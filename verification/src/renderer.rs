use vstd::prelude::*;
use crate::error::RenderResult;
use crate::render_node::RenderNode;

verus! {

/// Renderer only requires one method be implemented.
pub trait Renderer {
    /// The renderer is in a state from which it can render: it has its
    /// device, and its swapchain fits the surface or can be created again.
    /// A renderer that says nothing else is always usable.
    open spec fn usable(&self) -> bool {
        true
    }

    /// Renders the tree below `node` as one frame. The tree is only read. On
    /// success a frame has been composed and handed to the display. On
    /// failure the renderer is no worse off than before, and can be called
    /// again once the caller has dealt with the error.
    fn render<N: RenderNode>(&mut self, node: &N) -> (result: RenderResult<()>)
        requires
            old(self).usable(),
            node.attached(),
        ensures
            final(self).usable(),
    ;
}

} // verus!
