//! The kinds of render node.

pub mod geometry;
pub mod image_node;
pub mod shadow;
pub mod transform;

pub use self::geometry::Geometry;
pub use self::image_node::{Image, PixelBuffer};
pub use self::shadow::Shadow;
pub use self::transform::Transform;
