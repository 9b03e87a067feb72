use vstd::prelude::*;
use crate::scalar::Matrix;

verus! {

/// Transform a given render node by applying a transformation matrix. The
/// node wraps exactly one child, to which it refers by a value of type `N`.
#[derive(Debug)]
pub struct Transform<N> {
    child: N,
    transform: Matrix,
}

impl<N> Transform<N> {
    pub closed spec fn spec_child(&self) -> N {
        self.child
    }

    pub closed spec fn spec_transform(&self) -> Matrix {
        self.transform
    }

    pub fn new(child: N, transform: Matrix) -> (node: Transform<N>)
        ensures
            node.spec_child() == child,
            node.spec_transform() == transform,
    {
        Transform { child: child, transform: transform }
    }

    pub fn child(&self) -> (child: &N)
        ensures
            *child == self.spec_child(),
    {
        &self.child
    }

    pub fn transform(&self) -> (transform: &Matrix)
        ensures
            *transform == self.spec_transform(),
    {
        &self.transform
    }
}

} // verus!
