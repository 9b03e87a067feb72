//! What geometry is drawn with.

mod color;
mod material;
mod texture;

pub use self::color::Color;
pub use self::material::Material;
pub use self::texture::Texture;
