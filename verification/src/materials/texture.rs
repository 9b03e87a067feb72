use vstd::prelude::*;
use image::Rgba;
use crate::materials::material::Material;
use crate::nodes::image_node::Image;

verus! {

/// A material that takes its appearance from an image it owns.
#[derive(Debug)]
pub struct Texture {
    image: Image,
}

impl Texture {
    pub closed spec fn spec_image(&self) -> Image {
        self.image
    }

    pub fn new(image: Image) -> (texture: Texture)
        ensures
            texture.spec_image() == image,
    {
        Texture { image }
    }

    pub fn image(&self) -> (image: &Image)
        ensures
            *image == self.spec_image(),
    {
        &self.image
    }
}

impl Material for Texture {
    open spec fn uniform(&self) -> Option<Rgba<u8>> {
        None
    }

    fn uniform_color(&self) -> (color: Option<Rgba<u8>>) {
        None
    }
}

} // verus!
