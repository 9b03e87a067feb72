use vstd::prelude::*;
use image::Rgba;
use crate::materials::material::Material;

verus! {

/// A material of one solid colour.
#[derive(Debug)]
pub struct Color {
    value: Rgba<u8>,
}

impl Color {
    pub closed spec fn spec_value(&self) -> Rgba<u8> {
        self.value
    }

    pub fn new(value: Rgba<u8>) -> (color: Color)
        ensures
            color.spec_value() == value,
    {
        Color { value }
    }

    pub fn value(&self) -> (value: Rgba<u8>)
        ensures
            value == self.spec_value(),
    {
        self.value
    }
}

impl Material for Color {
    open spec fn uniform(&self) -> Option<Rgba<u8>> {
        Some(self.spec_value())
    }

    fn uniform_color(&self) -> (color: Option<Rgba<u8>>) {
        Some(self.value())
    }
}

} // verus!
