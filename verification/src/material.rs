//! Surface materials: a flat colour, reflectance weights and an optional
//! texture.

use vstd::prelude::*;
use crate::color::Color;
use crate::scalar::Scalar;
use crate::texture::Texture;

verus! {

/// What a surface is made of. Clones share the texture.
pub struct Material {
    /// The colour of the surface where it has no texture.
    pub diffuse: Color,
    /// The specular exponent.
    pub specular: Scalar,
    /// The weights of the diffuse and of the specular reflection.
    pub albedo: [Scalar; 2],
    /// The image that colours the surface, if any.
    pub textura: Option<Texture>,
}

impl Material {
    /// The colour that the surface shows at column `x`, row `y` of its
    /// texture: the texel there, a coordinate beyond the last column or row
    /// being held to it; without a texture, the flat colour.
    pub open spec fn color_at(self, x: nat, y: nat) -> Color {
        match self.textura {
            Some(texture) => texture.sample(x, y),
            None => self.diffuse,
        }
    }

    pub fn new(diffuse: Color, specular: Scalar, albedo: [Scalar; 2], textura: Option<Texture>) -> (m:
        Material)
        ensures
            m.diffuse == diffuse,
            m.specular == specular,
            m.albedo == albedo,
            m.textura == textura,
    {
        Material { diffuse, specular, albedo, textura }
    }

    /// The untextured black material, with no reflectance at all.
    pub fn black() -> (m: Material)
        ensures
            m.diffuse == Color::rgb(0, 0, 0),
            m.specular.bits == 0,
            m.albedo[0].bits == 0,
            m.albedo[1].bits == 0,
            m.textura is None,
    {
        Material::new(Color::new(0, 0, 0), Scalar::zero(), [Scalar::zero(), Scalar::zero()], None)
    }

    /// The colour of the surface at texel coordinates `(x, y)`.
    pub fn get_diffuse_color(&self, x: u32, y: u32) -> (color: Color)
        ensures
            color == self.color_at(x as nat, y as nat),
    {
        match &self.textura {
            Some(texture) => texture.get(x, y),
            None => self.diffuse,
        }
    }
}

impl Clone for Material {
    fn clone(&self) -> (other: Self)
        ensures
            other == *self,
    {
        let textura: Option<Texture> = match &self.textura {
            Some(texture) => Some(texture.clone()),
            None => None,
        };
        Material { diffuse: self.diffuse, specular: self.specular, albedo: self.albedo, textura }
    }
}

} // verus!
