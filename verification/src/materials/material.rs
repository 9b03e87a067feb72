use vstd::prelude::*;
use image::Rgba;

verus! {

/// Something that gives geometry its appearance. A material either looks the
/// same at every point, or has to be asked point by point.
pub trait Material {
    /// The one colour of the material, where it has one.
    spec fn uniform(&self) -> Option<Rgba<u8>>;

    /// The colour of the material at every point; none for a material whose
    /// appearance depends on where on the geometry it is looked up.
    fn uniform_color(&self) -> (color: Option<Rgba<u8>>)
        ensures
            color == self.uniform(),
    ;
}

} // verus!
