use vstd::prelude::*;
use crate::materials::Material;

verus! {

/// Render node which will draw geometry with a given material (colour,
/// texture). It owns its vertices and its material.
pub struct Geometry<N, M: Material> {
    geometry: Vec<N>,
    material: M,
}

impl<N, M: Material> Geometry<N, M> {
    /// The vertices, in order.
    pub closed spec fn vertices(&self) -> Seq<N> {
        self.geometry@
    }

    /// The material the geometry is drawn with.
    pub closed spec fn appearance(&self) -> M {
        self.material
    }

    pub fn new(geometry: Vec<N>, material: M) -> (node: Geometry<N, M>)
        ensures
            node.vertices() == geometry@,
            node.appearance() == material,
    {
        Geometry { geometry, material }
    }

    pub fn geometry(&self) -> (geometry: &Vec<N>)
        ensures
            geometry@ == self.vertices(),
    {
        &self.geometry
    }

    pub fn material(&self) -> (material: &M)
        ensures
            *material == self.appearance(),
    {
        &self.material
    }
}

} // verus!
