use vstd::prelude::*;
use image::Rgba;
use crate::scalar::{Bounds, Scalar};

verus! {

/// Simple outset shadow around a given bounds rectangle. The bounds of a
/// shadow are proper: neither their width nor their height is below zero.
#[derive(Debug)]
pub struct Shadow {
    bounds: Bounds,
    dx: Scalar,
    dy: Scalar,
    color: Rgba<u8>,
}

impl Shadow {
    pub closed spec fn spec_bounds(&self) -> Bounds {
        self.bounds
    }

    /// How far the shadow is moved to the right and downwards.
    pub closed spec fn spec_offset(&self) -> (Scalar, Scalar) {
        (self.dx, self.dy)
    }

    pub closed spec fn spec_color(&self) -> Rgba<u8> {
        self.color
    }

    #[verifier::type_invariant]
    closed spec fn proper(&self) -> bool {
        self.bounds.spec_is_proper()
    }

    /// A shadow around `bounds`; none if the bounds are not proper.
    pub fn new(bounds: Bounds, dx: Scalar, dy: Scalar, color: Rgba<u8>) -> (shadow: Option<Shadow>)
        ensures
            shadow is Some <==> bounds.spec_is_proper(),
            shadow matches Some(made) ==> made.spec_bounds() == bounds && made.spec_offset() == (
                dx,
                dy,
            ) && made.spec_color() == color,
    {
        if bounds.is_proper() {
            Some(Shadow { bounds, dx, dy, color })
        } else {
            None
        }
    }

    pub fn bounds(&self) -> (bounds: Bounds)
        ensures
            bounds == self.spec_bounds(),
            bounds.spec_is_proper(),
    {
        proof {
            use_type_invariant(self);
        }
        self.bounds
    }

    pub fn offset(&self) -> (offset: (Scalar, Scalar))
        ensures
            offset == self.spec_offset(),
    {
        (self.dx, self.dy)
    }

    pub fn color(&self) -> (color: Rgba<u8>)
        ensures
            color == self.spec_color(),
    {
        self.color
    }
}

} // verus!
