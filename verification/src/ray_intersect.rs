//! What a ray finds on a primitive, and what a primitive must offer.

use vstd::prelude::*;
use crate::color::Color;
use crate::material::Material;
use crate::scalar::Scalar;
use crate::vector::Vec3;

verus! {

/// The outcome of casting a ray at one primitive: nothing, or a hit.
pub struct Intersect {
    /// Where the ray meets the surface.
    pub point: Vec3,
    /// The surface normal there.
    pub normal: Vec3,
    /// How far along the ray the point lies.
    pub distance: Scalar,
    /// Whether the ray meets the primitive at all.
    pub is_intersecting: bool,
    /// The material of the surface.
    pub material: Material,
    /// The surface coordinate across, in the unit interval.
    pub u: Scalar,
    /// The surface coordinate down, in the unit interval.
    pub v: Scalar,
    /// `u` scaled to the columns of the material's texture.
    pub column: u32,
    /// `v` scaled to the rows of the material's texture.
    pub row: u32,
}

impl Intersect {
    /// The colour that the surface shows at the hit.
    pub open spec fn color(self) -> Color {
        self.material.color_at(self.column as nat, self.row as nat)
    }

    /// A hit. `column` and `row` are the texel of the material's texture
    /// that lies under the surface coordinates `u` and `v`.
    pub fn new(
        point: Vec3,
        normal: Vec3,
        distance: Scalar,
        material: Material,
        u: Scalar,
        v: Scalar,
        column: u32,
        row: u32,
    ) -> (hit: Intersect)
        ensures
            hit.is_intersecting,
            hit.point == point,
            hit.normal == normal,
            hit.distance == distance,
            hit.material == material,
            hit.u == u,
            hit.v == v,
            hit.column == column,
            hit.row == row,
    {
        Intersect { point, normal, distance, is_intersecting: true, material, u, v, column, row }
    }

    /// No hit.
    pub fn empty() -> (miss: Intersect)
        ensures
            !miss.is_intersecting,
            miss.point == Vec3::zeros(),
            miss.normal == Vec3::zeros(),
            miss.distance.bits == 0,
            miss.material.diffuse == Color::rgb(0, 0, 0),
            miss.material.textura is None,
            miss.u.bits == 0,
            miss.v.bits == 0,
            miss.column == 0,
            miss.row == 0,
    {
        let origin: Vec3 = Vec3::from_bits(0, 0, 0);
        assert(origin == Vec3::zeros());
        Intersect {
            point: origin,
            normal: origin,
            distance: Scalar::zero(),
            is_intersecting: false,
            material: Material::black(),
            u: Scalar::zero(),
            v: Scalar::zero(),
            column: 0,
            row: 0,
        }
    }
}

/// A primitive that rays can be cast at.
///
/// The library does not see how a primitive computes. It asks one thing of
/// every implementation, and takes it on trust: what a ray finds depends on
/// the primitive and the ray alone. `found` is that dependence, and
/// `ray_intersect` returns what it gives. An implementation in ordinary Rust
/// writes `found` as the computation itself and has `ray_intersect` call it.
pub trait RayIntersect {
    /// What a ray from `ray_origin` along `ray_direction` finds on the
    /// primitive.
    spec fn found(&self, ray_origin: Vec3, ray_direction: Vec3) -> Intersect;

    /// What a ray from `ray_origin` along the unit vector `ray_direction`
    /// finds on the primitive.
    fn ray_intersect(&self, ray_origin: &Vec3, ray_direction: &Vec3) -> (hit: Intersect)
        ensures
            hit == self.found(*ray_origin, *ray_direction),
    ;

    /// The surface coordinates of a point on the primitive.
    fn get_uv(&self, point: &Vec3) -> (Scalar, Scalar);
}

} // verus!
